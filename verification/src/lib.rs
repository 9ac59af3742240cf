//! A verified frame-synchronization core for a swapchain renderer.
//!
//! The library models the per-frame protocol that keeps CPU command
//! recording and GPU execution in step: acquire an image, record commands,
//! submit, present, wait on the completion fence, and only then recycle the
//! command pool and the uniform buffer. It also holds the static cube
//! geometry's index data, with a bounds-checked flattening of the per-face
//! index lists into one index buffer.

pub mod geometry;
pub mod laws;
pub mod sync;
