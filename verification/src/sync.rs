//! The per-frame synchronization state machine.
//!
//! One `FrameSynchronizer` value carries the whole mutable state of the frame
//! loop: the phase of the current iteration, the semaphore and fence state,
//! the command-pool and uniform-buffer bookkeeping, the surface and target
//! dimensions, and the rotation angle. Every transition is an executable
//! method whose contract says the new state is exactly `step` applied to the
//! old state and the event; the driver performs the GPU and window calls and
//! reports their outcomes back as events.

use vstd::prelude::*;

verus! {

/// The phase of the current frame iteration.
#[derive(Clone, Copy, Debug, PartialEq, Eq, Structural)]
pub enum Phase {
    /// Between iterations: events may be polled, the swapchain rebuilt,
    /// the loop left.
    Idle,
    /// The acquire call is in flight.
    Acquiring,
    /// An image is held; commands are being recorded.
    Recording,
    /// The recording was submitted to the graphics queue.
    Submitted,
    /// The present call is in flight.
    Presenting,
    /// The CPU is waiting on the completion fence.
    WaitingForCompletion,
    /// A fatal error: failed submission, or fence-wait retries exhausted.
    Failed,
    /// Torn down after a drained final frame.
    Done,
}

/// An event of the frame loop: a decision taken by the driver or the outcome
/// of an outside call, as reported back to the state machine.
pub enum Event {
    /// The window reported a close request (or the escape key).
    CloseRequested,
    /// The surface reported new pixel dimensions.
    Resized(u32, u32),
    /// The per-iteration rotation step.
    Tick,
    /// The acquire call was issued with the image-available semaphore.
    BeginAcquire,
    /// The acquire call returned this image index.
    FrameAcquired(usize),
    /// The acquire call reported the swapchain out of date.
    AcquireOutOfDate,
    /// The swapchain and its target views were rebuilt with this many slots.
    SwapchainRebuilt(usize),
    /// A command encoder was taken from the pool.
    EncoderAcquired,
    /// The uniform buffer was written with the frame's transform.
    UniformWritten,
    /// Clear and draw commands were recorded.
    CommandsRecorded,
    /// The submission returned: `true` on success, `false` on a failure.
    SubmitCompleted(bool),
    /// The present call was issued, gated on the render-done semaphore.
    BeginPresent,
    /// The present call returned: `true` on success, `false` for out of date.
    PresentCompleted(bool),
    /// The fence wait returned: `true` if signaled, `false` on a timeout.
    FenceWaited(bool),
    /// The fence was reset and the command pool recycled.
    PoolReset,
    /// The loop was left and the GPU resources released.
    TornDown,
}

/// What the driver should do next, given the current state.
#[derive(Clone, Copy, Debug, PartialEq, Eq, Structural)]
pub enum Action {
    /// Poll window events, advance the angle, then acquire the next image.
    BeginFrame,
    /// Rebuild the swapchain and its views at the current surface dimensions.
    RebuildSwapchain,
    /// Release all GPU resources and leave the loop.
    TearDown,
    /// An acquire call is in flight; report its outcome.
    AwaitAcquire,
    /// Take the frame's command encoder from the pool.
    AcquireEncoder,
    /// Write the frame's transform into the uniform buffer.
    WriteUniform,
    /// Record the clear and draw commands.
    RecordCommands,
    /// Submit the recording to the graphics queue.
    Submit,
    /// Present the rendered image, gated on the render-done semaphore.
    Present,
    /// A present call is in flight; report its outcome.
    AwaitPresent,
    /// Wait on the completion fence with the configured timeout.
    WaitFence,
    /// Reset the fence and recycle the command pool.
    ResetPool,
    /// A fatal error: release resources and exit with a message.
    Abort,
    /// The loop has ended.
    Exit,
}

/// The rotation angle the loop starts from, in degrees.
pub const INITIAL_ANGLE_DEG: u32 = 45;

/// Degrees in a full turn; the angle is kept below this.
pub const FULL_TURN_DEG: u32 = 360;

/// The whole mutable state of the frame loop.
pub struct FrameSynchronizer {
    /// Phase of the current iteration.
    pub phase: Phase,
    /// Number of presentable images in the swapchain.
    pub slot_count: usize,
    /// Index of the image acquired for the current iteration; meaningful
    /// from `Recording` through `WaitingForCompletion`.
    pub acquired: usize,
    /// An encoder has been taken from the pool and not yet recycled.
    pub encoder_live: bool,
    /// The uniform buffer holds this recording's transform.
    pub uniform_written: bool,
    /// The clear and draw commands of this recording are in place.
    pub commands_recorded: bool,
    /// A submission is executing on the GPU: its command memory and the
    /// uniform buffer may still be read, and the fence is armed.
    pub in_flight: bool,
    /// The completion fence was observed signaled and not yet reset.
    pub fence_observed: bool,
    /// The image-available semaphore carries a pending signal from acquire,
    /// not yet consumed by a submission.
    pub image_sem: bool,
    /// The render-done semaphore carries a pending signal from a submission,
    /// not yet consumed by a present.
    pub render_sem: bool,
    /// A close request was observed; the loop ends at the next `Idle`.
    pub close_requested: bool,
    /// The swapchain no longer matches the surface and must be rebuilt.
    pub needs_rebuild: bool,
    /// Surface width last reported.
    pub surface_w: u32,
    /// Surface height last reported.
    pub surface_h: u32,
    /// Width the swapchain's target views were built with.
    pub target_w: u32,
    /// Height the swapchain's target views were built with.
    pub target_h: u32,
    /// Rotation angle of the cube, in degrees, below a full turn.
    pub angle_deg: u32,
    /// How many fence-wait timeouts are tolerated per submission.
    pub retry_budget: u32,
    /// Fence-wait timeouts still tolerated for the current submission.
    pub retries_left: u32,
}

impl FrameSynchronizer {
    /// Well-formedness of the state: what every reachable state satisfies.
    pub open spec fn wf(self) -> bool {
        &&& self.slot_count >= 1
        &&& self.angle_deg < FULL_TURN_DEG
        &&& self.retries_left <= self.retry_budget
        &&& ((self.surface_w != self.target_w || self.surface_h != self.target_h)
            ==> self.needs_rebuild)
        &&& match self.phase {
            Phase::Idle => {
                &&& !self.in_flight
                &&& !self.encoder_live
                &&& !self.fence_observed
                &&& !self.image_sem
                &&& !self.render_sem
                &&& !self.uniform_written
                &&& !self.commands_recorded
            },
            Phase::Acquiring => {
                &&& !self.in_flight
                &&& !self.encoder_live
                &&& !self.fence_observed
                &&& !self.image_sem
                &&& !self.render_sem
                &&& !self.uniform_written
                &&& !self.commands_recorded
                &&& !self.needs_rebuild
                &&& self.surface_w == self.target_w
                &&& self.surface_h == self.target_h
            },
            Phase::Recording => {
                &&& self.acquired < self.slot_count
                &&& self.image_sem
                &&& !self.render_sem
                &&& !self.in_flight
                &&& !self.fence_observed
                &&& (self.commands_recorded ==> self.uniform_written)
                &&& (self.uniform_written ==> self.encoder_live)
            },
            Phase::Submitted => {
                &&& self.acquired < self.slot_count
                &&& self.in_flight
                &&& self.render_sem
                &&& !self.image_sem
                &&& self.encoder_live
                &&& self.uniform_written
                &&& self.commands_recorded
                &&& !self.fence_observed
            },
            Phase::Presenting => {
                &&& self.acquired < self.slot_count
                &&& self.in_flight
                &&& self.render_sem
                &&& !self.image_sem
                &&& self.encoder_live
                &&& self.uniform_written
                &&& self.commands_recorded
                &&& !self.fence_observed
            },
            Phase::WaitingForCompletion => {
                &&& self.acquired < self.slot_count
                &&& self.encoder_live
                &&& self.uniform_written
                &&& self.commands_recorded
                &&& !self.image_sem
                &&& !self.render_sem
                &&& (self.in_flight <==> !self.fence_observed)
            },
            Phase::Failed => true,
            Phase::Done => !self.in_flight,
        }
    }
}

/// The state the loop starts in.
pub open spec fn initial_state(
    surface_w: u32,
    surface_h: u32,
    slot_count: usize,
    retry_budget: u32,
) -> FrameSynchronizer {
    FrameSynchronizer {
        phase: Phase::Idle,
        slot_count: slot_count,
        acquired: 0,
        encoder_live: false,
        uniform_written: false,
        commands_recorded: false,
        in_flight: false,
        fence_observed: false,
        image_sem: false,
        render_sem: false,
        close_requested: false,
        needs_rebuild: false,
        surface_w: surface_w,
        surface_h: surface_h,
        target_w: surface_w,
        target_h: surface_h,
        angle_deg: INITIAL_ANGLE_DEG,
        retry_budget: retry_budget,
        retries_left: retry_budget,
    }
}

/// When an event may happen: the guard of each transition.
pub open spec fn enabled(s: FrameSynchronizer, e: Event) -> bool {
    match e {
        Event::CloseRequested => s.phase == Phase::Idle,
        Event::Resized(_, _) => s.phase == Phase::Idle,
        Event::Tick => s.phase == Phase::Idle,
        Event::BeginAcquire => {
            &&& s.phase == Phase::Idle
            &&& !s.close_requested
            &&& !s.needs_rebuild
        },
        Event::FrameAcquired(i) => s.phase == Phase::Acquiring && i < s.slot_count,
        Event::AcquireOutOfDate => s.phase == Phase::Acquiring,
        Event::SwapchainRebuilt(n) => {
            &&& s.phase == Phase::Idle
            &&& s.needs_rebuild
            &&& n >= 1
        },
        Event::EncoderAcquired => s.phase == Phase::Recording && !s.encoder_live,
        Event::UniformWritten => {
            &&& s.phase == Phase::Recording
            &&& s.encoder_live
            &&& !s.uniform_written
            &&& !s.in_flight
        },
        Event::CommandsRecorded => {
            &&& s.phase == Phase::Recording
            &&& s.encoder_live
            &&& s.uniform_written
            &&& !s.commands_recorded
        },
        Event::SubmitCompleted(_) => {
            &&& s.phase == Phase::Recording
            &&& s.encoder_live
            &&& s.uniform_written
            &&& s.commands_recorded
            &&& s.image_sem
            &&& !s.render_sem
            &&& !s.in_flight
        },
        Event::BeginPresent => s.phase == Phase::Submitted && s.render_sem,
        Event::PresentCompleted(_) => s.phase == Phase::Presenting,
        Event::FenceWaited(_) => s.phase == Phase::WaitingForCompletion && s.in_flight,
        Event::PoolReset => {
            &&& s.phase == Phase::WaitingForCompletion
            &&& s.fence_observed
            &&& !s.in_flight
        },
        Event::TornDown => {
            &&& s.phase == Phase::Idle
            &&& s.close_requested
            &&& !s.in_flight
            &&& !s.encoder_live
        },
    }
}

/// The state after an event. Kept opaque so that reasoning about a trace
/// only unfolds the transitions it actually looks at.
#[verifier::opaque]
pub open spec fn step(s: FrameSynchronizer, e: Event) -> FrameSynchronizer {
    match e {
        Event::CloseRequested => FrameSynchronizer { close_requested: true, ..s },
        Event::Resized(w, h) => FrameSynchronizer {
            surface_w: w,
            surface_h: h,
            needs_rebuild: s.needs_rebuild || w != s.target_w || h != s.target_h,
            ..s
        },
        Event::Tick => FrameSynchronizer {
            angle_deg: ((s.angle_deg + 1) % (FULL_TURN_DEG as int)) as u32,
            ..s
        },
        Event::BeginAcquire => FrameSynchronizer { phase: Phase::Acquiring, ..s },
        Event::FrameAcquired(i) => FrameSynchronizer {
            phase: Phase::Recording,
            acquired: i,
            image_sem: true,
            ..s
        },
        Event::AcquireOutOfDate => FrameSynchronizer {
            phase: Phase::Idle,
            needs_rebuild: true,
            ..s
        },
        Event::SwapchainRebuilt(n) => FrameSynchronizer {
            slot_count: n,
            target_w: s.surface_w,
            target_h: s.surface_h,
            needs_rebuild: false,
            ..s
        },
        Event::EncoderAcquired => FrameSynchronizer { encoder_live: true, ..s },
        Event::UniformWritten => FrameSynchronizer { uniform_written: true, ..s },
        Event::CommandsRecorded => FrameSynchronizer { commands_recorded: true, ..s },
        Event::SubmitCompleted(ok) => if ok {
            FrameSynchronizer {
                phase: Phase::Submitted,
                image_sem: false,
                render_sem: true,
                in_flight: true,
                retries_left: s.retry_budget,
                ..s
            }
        } else {
            FrameSynchronizer { phase: Phase::Failed, image_sem: false, ..s }
        },
        Event::BeginPresent => FrameSynchronizer { phase: Phase::Presenting, ..s },
        Event::PresentCompleted(ok) => FrameSynchronizer {
            phase: Phase::WaitingForCompletion,
            render_sem: false,
            needs_rebuild: s.needs_rebuild || !ok,
            ..s
        },
        Event::FenceWaited(signaled) => if signaled {
            FrameSynchronizer { in_flight: false, fence_observed: true, ..s }
        } else if s.retries_left > 0 {
            FrameSynchronizer { retries_left: (s.retries_left - 1) as u32, ..s }
        } else {
            FrameSynchronizer { phase: Phase::Failed, ..s }
        },
        Event::PoolReset => FrameSynchronizer {
            phase: Phase::Idle,
            encoder_live: false,
            uniform_written: false,
            commands_recorded: false,
            fence_observed: false,
            ..s
        },
        Event::TornDown => FrameSynchronizer { phase: Phase::Done, ..s },
    }
}

/// Every enabled event preserves well-formedness.
pub proof fn lemma_wf_step(s: FrameSynchronizer, e: Event)
    requires
        s.wf(),
        enabled(s, e),
    ensures
        step(s, e).wf(),
{
    reveal(crate::sync::step);
}

/// What the driver should do next in a given state.
pub open spec fn spec_next_action(s: FrameSynchronizer) -> Action {
    match s.phase {
        Phase::Idle => if s.close_requested {
            Action::TearDown
        } else if s.needs_rebuild {
            Action::RebuildSwapchain
        } else {
            Action::BeginFrame
        },
        Phase::Acquiring => Action::AwaitAcquire,
        Phase::Recording => if !s.encoder_live {
            Action::AcquireEncoder
        } else if !s.uniform_written {
            Action::WriteUniform
        } else if !s.commands_recorded {
            Action::RecordCommands
        } else {
            Action::Submit
        },
        Phase::Submitted => Action::Present,
        Phase::Presenting => Action::AwaitPresent,
        Phase::WaitingForCompletion => if s.in_flight {
            Action::WaitFence
        } else {
            Action::ResetPool
        },
        Phase::Failed => Action::Abort,
        Phase::Done => Action::Exit,
    }
}

impl FrameSynchronizer {
    /// A fresh loop state for a surface of the given dimensions, a swapchain
    /// of `slot_count` images, and the given fence-wait retry budget.
    pub fn new(surface_w: u32, surface_h: u32, slot_count: usize, retry_budget: u32) -> (s: Self)
        requires
            slot_count >= 1,
        ensures
            s == initial_state(surface_w, surface_h, slot_count, retry_budget),
            s.wf(),
    {
        FrameSynchronizer {
            phase: Phase::Idle,
            slot_count: slot_count,
            acquired: 0,
            encoder_live: false,
            uniform_written: false,
            commands_recorded: false,
            in_flight: false,
            fence_observed: false,
            image_sem: false,
            render_sem: false,
            close_requested: false,
            needs_rebuild: false,
            surface_w: surface_w,
            surface_h: surface_h,
            target_w: surface_w,
            target_h: surface_h,
            angle_deg: INITIAL_ANGLE_DEG,
            retry_budget: retry_budget,
            retries_left: retry_budget,
        }
    }

    /// What the driver should do next.
    pub fn next_action(&self) -> (a: Action)
        ensures
            a == spec_next_action(*self),
    {
        match self.phase {
            Phase::Idle => if self.close_requested {
                Action::TearDown
            } else if self.needs_rebuild {
                Action::RebuildSwapchain
            } else {
                Action::BeginFrame
            },
            Phase::Acquiring => Action::AwaitAcquire,
            Phase::Recording => if !self.encoder_live {
                Action::AcquireEncoder
            } else if !self.uniform_written {
                Action::WriteUniform
            } else if !self.commands_recorded {
                Action::RecordCommands
            } else {
                Action::Submit
            },
            Phase::Submitted => Action::Present,
            Phase::Presenting => Action::AwaitPresent,
            Phase::WaitingForCompletion => if self.in_flight {
                Action::WaitFence
            } else {
                Action::ResetPool
            },
            Phase::Failed => Action::Abort,
            Phase::Done => Action::Exit,
        }
    }

    /// A window close request (or the escape key) was observed.
    pub fn note_close_requested(&mut self)
        requires
            old(self).wf(),
            enabled(*old(self), Event::CloseRequested),
        ensures
            *final(self) == step(*old(self), Event::CloseRequested),
            final(self).wf(),
    {
        proof {
            reveal(crate::sync::step);
        }
        self.close_requested = true;
    }

    /// The surface reported new pixel dimensions.
    pub fn note_resized(&mut self, w: u32, h: u32)
        requires
            old(self).wf(),
            enabled(*old(self), Event::Resized(w, h)),
        ensures
            *final(self) == step(*old(self), Event::Resized(w, h)),
            final(self).wf(),
    {
        proof {
            reveal(crate::sync::step);
        }
        if w != self.target_w || h != self.target_h {
            self.needs_rebuild = true;
        }
        self.surface_w = w;
        self.surface_h = h;
    }

    /// Advance the rotation angle by one degree, wrapping at a full turn.
    pub fn advance_angle(&mut self)
        requires
            old(self).wf(),
            enabled(*old(self), Event::Tick),
        ensures
            *final(self) == step(*old(self), Event::Tick),
            final(self).wf(),
    {
        proof {
            reveal(crate::sync::step);
        }
        self.angle_deg = (self.angle_deg + 1) % FULL_TURN_DEG;
    }

    /// The acquire call is issued with the image-available semaphore.
    pub fn begin_acquire(&mut self)
        requires
            old(self).wf(),
            enabled(*old(self), Event::BeginAcquire),
        ensures
            *final(self) == step(*old(self), Event::BeginAcquire),
            final(self).wf(),
    {
        proof {
            reveal(crate::sync::step);
        }
        self.phase = Phase::Acquiring;
    }

    /// The acquire call returned image index `i`; the image-available
    /// semaphore will be signaled when the image is safe to render into.
    pub fn complete_acquire(&mut self, i: usize)
        requires
            old(self).wf(),
            enabled(*old(self), Event::FrameAcquired(i)),
        ensures
            *final(self) == step(*old(self), Event::FrameAcquired(i)),
            final(self).wf(),
    {
        proof {
            reveal(crate::sync::step);
        }
        self.phase = Phase::Recording;
        self.acquired = i;
        self.image_sem = true;
    }

    /// The acquire call reported the swapchain out of date: a recoverable
    /// error; the swapchain must be rebuilt before the next acquire.
    pub fn note_acquire_out_of_date(&mut self)
        requires
            old(self).wf(),
            enabled(*old(self), Event::AcquireOutOfDate),
        ensures
            *final(self) == step(*old(self), Event::AcquireOutOfDate),
            final(self).wf(),
    {
        proof {
            reveal(crate::sync::step);
        }
        self.phase = Phase::Idle;
        self.needs_rebuild = true;
    }

    /// The swapchain and its color and depth views were rebuilt at the
    /// current surface dimensions, with `n` image slots.
    pub fn note_swapchain_rebuilt(&mut self, n: usize)
        requires
            old(self).wf(),
            enabled(*old(self), Event::SwapchainRebuilt(n)),
        ensures
            *final(self) == step(*old(self), Event::SwapchainRebuilt(n)),
            final(self).wf(),
            final(self).target_w == final(self).surface_w,
            final(self).target_h == final(self).surface_h,
    {
        proof {
            reveal(crate::sync::step);
        }
        self.slot_count = n;
        self.target_w = self.surface_w;
        self.target_h = self.surface_h;
        self.needs_rebuild = false;
    }

    /// A command encoder was taken from the pool. The pool must not hand out
    /// a second encoder before the fence-observed reset recycles this one.
    pub fn acquire_encoder(&mut self)
        requires
            old(self).wf(),
            enabled(*old(self), Event::EncoderAcquired),
        ensures
            *final(self) == step(*old(self), Event::EncoderAcquired),
            final(self).wf(),
    {
        proof {
            reveal(crate::sync::step);
        }
        self.encoder_live = true;
    }

    /// The uniform buffer was written with this frame's transform, once per
    /// recording. No submission may be in flight: the GPU could still be
    /// reading it.
    pub fn write_uniform(&mut self)
        requires
            old(self).wf(),
            enabled(*old(self), Event::UniformWritten),
        ensures
            *final(self) == step(*old(self), Event::UniformWritten),
            final(self).wf(),
    {
        proof {
            reveal(crate::sync::step);
        }
        self.uniform_written = true;
    }

    /// The clear and draw commands were recorded into the encoder.
    pub fn record_commands(&mut self)
        requires
            old(self).wf(),
            enabled(*old(self), Event::CommandsRecorded),
        ensures
            *final(self) == step(*old(self), Event::CommandsRecorded),
            final(self).wf(),
    {
        proof {
            reveal(crate::sync::step);
        }
        self.commands_recorded = true;
    }

    /// The submission returned. On success it consumed the image-available
    /// signal, armed the fence, and will signal render-done; on failure the
    /// device is considered lost, which is fatal.
    pub fn complete_submit(&mut self, ok: bool)
        requires
            old(self).wf(),
            enabled(*old(self), Event::SubmitCompleted(ok)),
        ensures
            *final(self) == step(*old(self), Event::SubmitCompleted(ok)),
            final(self).wf(),
    {
        proof {
            reveal(crate::sync::step);
        }
        if ok {
            self.phase = Phase::Submitted;
            self.image_sem = false;
            self.render_sem = true;
            self.in_flight = true;
            self.retries_left = self.retry_budget;
        } else {
            self.phase = Phase::Failed;
            self.image_sem = false;
        }
    }

    /// The present call is issued, gated on the render-done semaphore.
    pub fn begin_present(&mut self)
        requires
            old(self).wf(),
            enabled(*old(self), Event::BeginPresent),
        ensures
            *final(self) == step(*old(self), Event::BeginPresent),
            final(self).wf(),
    {
        proof {
            reveal(crate::sync::step);
        }
        self.phase = Phase::Presenting;
    }

    /// The present call returned. Out of date is recoverable: the frame is
    /// still drained through the fence wait, then the swapchain is rebuilt.
    pub fn complete_present(&mut self, ok: bool)
        requires
            old(self).wf(),
            enabled(*old(self), Event::PresentCompleted(ok)),
        ensures
            *final(self) == step(*old(self), Event::PresentCompleted(ok)),
            final(self).wf(),
    {
        proof {
            reveal(crate::sync::step);
        }
        self.phase = Phase::WaitingForCompletion;
        self.render_sem = false;
        if !ok {
            self.needs_rebuild = true;
        }
    }

    /// The bounded fence wait returned. A timeout is retried while the
    /// budget lasts and reported as fatal once it is spent; a signal means
    /// the GPU is done with this frame's command memory and uniform data.
    pub fn complete_fence_wait(&mut self, signaled: bool)
        requires
            old(self).wf(),
            enabled(*old(self), Event::FenceWaited(signaled)),
        ensures
            *final(self) == step(*old(self), Event::FenceWaited(signaled)),
            final(self).wf(),
    {
        proof {
            reveal(crate::sync::step);
        }
        if signaled {
            self.in_flight = false;
            self.fence_observed = true;
        } else if self.retries_left > 0 {
            self.retries_left = self.retries_left - 1;
        } else {
            self.phase = Phase::Failed;
        }
    }

    /// The fence was reset and the command pool recycled, which is allowed
    /// only after the fence was observed signaled.
    pub fn reset_pool(&mut self)
        requires
            old(self).wf(),
            enabled(*old(self), Event::PoolReset),
        ensures
            *final(self) == step(*old(self), Event::PoolReset),
            final(self).wf(),
    {
        proof {
            reveal(crate::sync::step);
        }
        self.phase = Phase::Idle;
        self.encoder_live = false;
        self.uniform_written = false;
        self.commands_recorded = false;
        self.fence_observed = false;
    }

    /// The loop is left: allowed only at `Idle` after a close request, with
    /// no submission in flight, so no GPU resource is destroyed while the
    /// GPU may still read it.
    pub fn teardown(&mut self)
        requires
            old(self).wf(),
            enabled(*old(self), Event::TornDown),
        ensures
            *final(self) == step(*old(self), Event::TornDown),
            final(self).wf(),
    {
        proof {
            reveal(crate::sync::step);
        }
        self.phase = Phase::Done;
    }
}

} // verus!

