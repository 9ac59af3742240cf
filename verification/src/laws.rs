//! Laws of the frame-synchronization protocol, stated over event traces.
//!
//! A trace is a sequence of events; it is valid when every event is enabled
//! in the state reached by the events before it. The lemmas here hold of
//! every valid trace, whatever the driver and the GPU do: the command pool
//! hands out one encoder at a time with a fence-observed reset in between,
//! the uniform buffer is never rewritten while a submission is in flight,
//! an in-flight frame is always drained before teardown, and frames are
//! only acquired while the target views match the surface dimensions.

use vstd::prelude::*;

use crate::sync::{enabled, step, Event, FrameSynchronizer};

verus! {

/// The state reached from `s0` after the first `i` events of `t`.
pub open spec fn state_at(s0: FrameSynchronizer, t: Seq<Event>, i: int) -> FrameSynchronizer
    decreases i,
{
    if i <= 0 {
        s0
    } else {
        step(state_at(s0, t, i - 1), t[i - 1])
    }
}

/// A valid trace: it starts from a well-formed state and every event is
/// enabled in the state it is taken from.
pub open spec fn valid_trace(s0: FrameSynchronizer, t: Seq<Event>) -> bool {
    &&& s0.wf()
    &&& forall|i: int| 0 <= i < t.len() ==> enabled(state_at(s0, t, i), #[trigger] t[i])
}

/// Every state along a valid trace is well-formed.
pub proof fn lemma_wf_at(s0: FrameSynchronizer, t: Seq<Event>, i: int)
    requires
        valid_trace(s0, t),
        0 <= i <= t.len(),
    ensures
        state_at(s0, t, i).wf(),
    decreases i,
{
    if i > 0 {
        lemma_wf_at(s0, t, i - 1);
        assert(enabled(state_at(s0, t, i - 1), t[i - 1]));
        crate::sync::lemma_wf_step(state_at(s0, t, i - 1), t[i - 1]);
    }
}

/// Of all the enabled events, only a pool reset retires a live encoder, and
/// it happens only with the fence observed.
proof fn lemma_encoder_cleared_only_by_reset(s: FrameSynchronizer, e: Event)
    requires
        enabled(s, e),
        s.encoder_live,
        !step(s, e).encoder_live,
    ensures
        e is PoolReset,
        s.fence_observed,
{
    reveal(crate::sync::step);
}

/// Acquiring an encoder leaves it live.
proof fn lemma_step_encoder_acquired(s: FrameSynchronizer)
    ensures
        step(s, Event::EncoderAcquired).encoder_live,
{
    reveal(crate::sync::step);
}

/// Of all the enabled events, only a signaled fence wait retires an
/// in-flight submission.
proof fn lemma_inflight_cleared_only_by_fence(s: FrameSynchronizer, e: Event)
    requires
        enabled(s, e),
        s.in_flight,
        !step(s, e).in_flight,
    ensures
        e == Event::FenceWaited(true),
{
    reveal(crate::sync::step);
}

/// A successful submission is in flight.
proof fn lemma_step_submit_ok(s: FrameSynchronizer)
    ensures
        step(s, Event::SubmitCompleted(true)).in_flight,
{
    reveal(crate::sync::step);
}

/// Of all the enabled events, only a pool reset clears the uniform buffer's
/// written mark, and it happens only with the fence observed.
proof fn lemma_uniform_cleared_only_by_reset(s: FrameSynchronizer, e: Event)
    requires
        enabled(s, e),
        s.uniform_written,
        !step(s, e).uniform_written,
    ensures
        e is PoolReset,
        s.fence_observed,
{
    reveal(crate::sync::step);
}

/// Writing the uniform buffer leaves it marked written.
proof fn lemma_step_uniform_written(s: FrameSynchronizer)
    ensures
        step(s, Event::UniformWritten).uniform_written,
{
    reveal(crate::sync::step);
}

/// If the encoder is live at `m` and no longer live at `n`, some event in
/// between was a pool reset, taken with the fence observed: nothing else
/// recycles a live encoder.
pub proof fn lemma_pool_reset_between(s0: FrameSynchronizer, t: Seq<Event>, m: int, n: int)
    requires
        valid_trace(s0, t),
        0 <= m <= n <= t.len(),
        state_at(s0, t, m).encoder_live,
        !state_at(s0, t, n).encoder_live,
    ensures
        exists|k: int|
            m <= k < n && #[trigger] t[k] is PoolReset && state_at(s0, t, k).fence_observed,
    decreases n - m,
{
    let sm = state_at(s0, t, m);
    let sm1 = state_at(s0, t, m + 1);
    assert(enabled(sm, t[m]));
    assert(sm1 == step(sm, t[m]));
    if sm1.encoder_live {
        lemma_pool_reset_between(s0, t, m + 1, n);
        let k = choose|k: int|
            m + 1 <= k < n && #[trigger] t[k] is PoolReset && state_at(s0, t, k).fence_observed;
        assert(m <= k < n && t[k] is PoolReset && state_at(s0, t, k).fence_observed);
    } else {
        lemma_encoder_cleared_only_by_reset(sm, t[m]);
        assert(m <= m < n && t[m] is PoolReset && state_at(s0, t, m).fence_observed);
    }
}

/// If a submission is in flight at `m` and no longer in flight at `n`, some
/// event in between observed the fence signaled: nothing else retires a
/// submission.
pub proof fn lemma_fence_observed_between(s0: FrameSynchronizer, t: Seq<Event>, m: int, n: int)
    requires
        valid_trace(s0, t),
        0 <= m <= n <= t.len(),
        state_at(s0, t, m).in_flight,
        !state_at(s0, t, n).in_flight,
    ensures
        exists|k: int| m <= k < n && #[trigger] t[k] == Event::FenceWaited(true),
    decreases n - m,
{
    let sm = state_at(s0, t, m);
    let sm1 = state_at(s0, t, m + 1);
    assert(enabled(sm, t[m]));
    assert(sm1 == step(sm, t[m]));
    if sm1.in_flight {
        lemma_fence_observed_between(s0, t, m + 1, n);
        let k = choose|k: int| m + 1 <= k < n && #[trigger] t[k] == Event::FenceWaited(true);
        assert(m <= k < n && t[k] == Event::FenceWaited(true));
    } else {
        lemma_inflight_cleared_only_by_fence(sm, t[m]);
        assert(m <= m < n && t[m] == Event::FenceWaited(true));
    }
}

/// Single-flight: between any two encoder acquisitions of a valid trace
/// there is a pool reset, and the reset is taken only with the completion
/// fence observed. The pool never hands out a second encoder while the
/// first may still back GPU-visible command memory.
pub proof fn lemma_single_flight(s0: FrameSynchronizer, t: Seq<Event>, i: int, j: int)
    requires
        valid_trace(s0, t),
        0 <= i < j < t.len(),
        t[i] is EncoderAcquired,
        t[j] is EncoderAcquired,
    ensures
        exists|k: int|
            i < k < j && #[trigger] t[k] is PoolReset && state_at(s0, t, k).fence_observed,
{
    assert(enabled(state_at(s0, t, i), t[i]));
    assert(enabled(state_at(s0, t, j), t[j]));
    lemma_step_encoder_acquired(state_at(s0, t, i));
    assert(state_at(s0, t, i + 1) == step(state_at(s0, t, i), t[i]));
    assert(state_at(s0, t, i + 1).encoder_live);
    assert(!state_at(s0, t, j).encoder_live);
    lemma_pool_reset_between(s0, t, i + 1, j);
    let k = choose|k: int|
        i + 1 <= k < j && #[trigger] t[k] is PoolReset && state_at(s0, t, k).fence_observed;
    assert(i < k < j && t[k] is PoolReset && state_at(s0, t, k).fence_observed);
}

/// No premature reuse: after a successful submission, the uniform buffer is
/// not written again until that submission's fence was observed signaled.
pub proof fn lemma_no_premature_uniform_reuse(
    s0: FrameSynchronizer,
    t: Seq<Event>,
    i: int,
    j: int,
)
    requires
        valid_trace(s0, t),
        0 <= i < j < t.len(),
        t[i] == Event::SubmitCompleted(true),
        t[j] is UniformWritten,
    ensures
        exists|k: int| i < k < j && #[trigger] t[k] == Event::FenceWaited(true),
{
    assert(enabled(state_at(s0, t, i), t[i]));
    assert(enabled(state_at(s0, t, j), t[j]));
    lemma_step_submit_ok(state_at(s0, t, i));
    assert(state_at(s0, t, i + 1) == step(state_at(s0, t, i), t[i]));
    assert(state_at(s0, t, i + 1).in_flight);
    assert(!state_at(s0, t, j).in_flight);
    lemma_fence_observed_between(s0, t, i + 1, j);
    let k = choose|k: int| i + 1 <= k < j && #[trigger] t[k] == Event::FenceWaited(true);
    assert(i < k < j && t[k] == Event::FenceWaited(true));
}

/// If the uniform buffer is marked written at `m` and no longer at `n`, some
/// event in between was a pool reset, taken with the fence observed.
pub proof fn lemma_uniform_cleared_between(s0: FrameSynchronizer, t: Seq<Event>, m: int, n: int)
    requires
        valid_trace(s0, t),
        0 <= m <= n <= t.len(),
        state_at(s0, t, m).uniform_written,
        !state_at(s0, t, n).uniform_written,
    ensures
        exists|k: int|
            m <= k < n && #[trigger] t[k] is PoolReset && state_at(s0, t, k).fence_observed,
    decreases n - m,
{
    let sm = state_at(s0, t, m);
    let sm1 = state_at(s0, t, m + 1);
    assert(enabled(sm, t[m]));
    assert(sm1 == step(sm, t[m]));
    if sm1.uniform_written {
        lemma_uniform_cleared_between(s0, t, m + 1, n);
        let k = choose|k: int|
            m + 1 <= k < n && #[trigger] t[k] is PoolReset && state_at(s0, t, k).fence_observed;
        assert(m <= k < n && t[k] is PoolReset && state_at(s0, t, k).fence_observed);
    } else {
        lemma_uniform_cleared_only_by_reset(sm, t[m]);
        assert(m <= m < n && t[m] is PoolReset && state_at(s0, t, m).fence_observed);
    }
}

/// The uniform buffer is written once per frame: between any two uniform
/// writes of a valid trace there is a pool reset, taken only with the
/// completion fence observed, so the previous write's submission had
/// finished on the GPU before the buffer was touched again.
pub proof fn lemma_uniform_rewrite_needs_fenced_reset(
    s0: FrameSynchronizer,
    t: Seq<Event>,
    i: int,
    j: int,
)
    requires
        valid_trace(s0, t),
        0 <= i < j < t.len(),
        t[i] is UniformWritten,
        t[j] is UniformWritten,
    ensures
        exists|k: int|
            i < k < j && #[trigger] t[k] is PoolReset && state_at(s0, t, k).fence_observed,
{
    assert(enabled(state_at(s0, t, i), t[i]));
    assert(enabled(state_at(s0, t, j), t[j]));
    lemma_step_uniform_written(state_at(s0, t, i));
    assert(state_at(s0, t, i + 1) == step(state_at(s0, t, i), t[i]));
    assert(state_at(s0, t, i + 1).uniform_written);
    assert(!state_at(s0, t, j).uniform_written);
    lemma_uniform_cleared_between(s0, t, i + 1, j);
    let k = choose|k: int|
        i + 1 <= k < j && #[trigger] t[k] is PoolReset && state_at(s0, t, k).fence_observed;
    assert(i < k < j && t[k] is PoolReset && state_at(s0, t, k).fence_observed);
}

/// Drain on exit: teardown happens only with no submission in flight, and
/// between any successful submission and a later teardown the completion
/// fence was observed signaled. No GPU resource is destroyed while the
/// fence of an in-flight frame is unsignaled.
pub proof fn lemma_drain_on_exit(s0: FrameSynchronizer, t: Seq<Event>, i: int, j: int)
    requires
        valid_trace(s0, t),
        0 <= i < j < t.len(),
        t[i] == Event::SubmitCompleted(true),
        t[j] is TornDown,
    ensures
        !state_at(s0, t, j).in_flight,
        exists|k: int| i < k < j && #[trigger] t[k] == Event::FenceWaited(true),
{
    assert(enabled(state_at(s0, t, i), t[i]));
    assert(enabled(state_at(s0, t, j), t[j]));
    lemma_step_submit_ok(state_at(s0, t, i));
    assert(state_at(s0, t, i + 1) == step(state_at(s0, t, i), t[i]));
    assert(state_at(s0, t, i + 1).in_flight);
    assert(!state_at(s0, t, j).in_flight);
    lemma_fence_observed_between(s0, t, i + 1, j);
    let k = choose|k: int| i + 1 <= k < j && #[trigger] t[k] == Event::FenceWaited(true);
    assert(i < k < j && t[k] == Event::FenceWaited(true));
}

/// Resize handling: a frame is only ever acquired while the swapchain's
/// target views were built at the dimensions the surface last reported, so
/// an acquire/present cycle after a resize runs on the new targets, never
/// on stale ones.
pub proof fn lemma_acquire_uses_current_dims(s0: FrameSynchronizer, t: Seq<Event>, i: int)
    requires
        valid_trace(s0, t),
        0 <= i < t.len(),
        t[i] is BeginAcquire || t[i] is FrameAcquired,
    ensures
        state_at(s0, t, i).surface_w == state_at(s0, t, i).target_w,
        state_at(s0, t, i).surface_h == state_at(s0, t, i).target_h,
    decreases i,
{
    lemma_wf_at(s0, t, i);
    assert(enabled(state_at(s0, t, i), t[i]));
}

} // verus!
