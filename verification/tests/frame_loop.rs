use framesync::sync::{Action, FrameSynchronizer, Phase};

fn run_one_frame(s: &mut FrameSynchronizer, index: usize) {
    assert_eq!(s.phase, Phase::Idle);
    s.begin_acquire();
    assert_eq!(s.phase, Phase::Acquiring);
    s.complete_acquire(index);
    assert_eq!(s.phase, Phase::Recording);
    s.acquire_encoder();
    assert!(s.encoder_live);
    s.write_uniform();
    s.record_commands();
    s.complete_submit(true);
    assert_eq!(s.phase, Phase::Submitted);
    assert!(s.in_flight);
    s.begin_present();
    assert_eq!(s.phase, Phase::Presenting);
    s.complete_present(true);
    assert_eq!(s.phase, Phase::WaitingForCompletion);
    s.complete_fence_wait(true);
    assert!(!s.in_flight);
    assert!(s.fence_observed);
    s.reset_pool();
    assert_eq!(s.phase, Phase::Idle);
    assert!(!s.encoder_live);
}

#[test]
fn full_frame_cycle() {
    let mut s = FrameSynchronizer::new(1024, 768, 2, 3);
    assert_eq!(s.angle_deg, 45);
    assert_eq!(s.next_action(), Action::BeginFrame);
    s.advance_angle();
    assert_eq!(s.angle_deg, 46);
    run_one_frame(&mut s, 0);
    s.advance_angle();
    run_one_frame(&mut s, 1);
    assert_eq!(s.angle_deg, 47);
}

#[test]
fn single_flight_reset_between_encoders() {
    // The encoder becomes live on acquisition and is only retired by the
    // pool reset, which itself happens only after the fence was observed.
    let mut s = FrameSynchronizer::new(640, 480, 2, 0);
    s.begin_acquire();
    s.complete_acquire(0);
    s.acquire_encoder();
    assert!(s.encoder_live);
    s.write_uniform();
    s.record_commands();
    s.complete_submit(true);
    s.begin_present();
    s.complete_present(true);
    // still live through present and wait
    assert!(s.encoder_live);
    s.complete_fence_wait(true);
    assert!(s.encoder_live);
    assert!(s.fence_observed);
    s.reset_pool();
    // only now may a new encoder be acquired
    assert!(!s.encoder_live);
    s.begin_acquire();
    s.complete_acquire(1);
    s.acquire_encoder();
    assert!(s.encoder_live);
}

#[test]
fn uniform_not_reusable_while_in_flight() {
    // After a submission, in_flight stays set through present and only a
    // signaled fence wait clears it; a uniform write is enabled only when
    // no submission is in flight.
    let mut s = FrameSynchronizer::new(640, 480, 2, 1);
    s.begin_acquire();
    s.complete_acquire(0);
    s.acquire_encoder();
    s.write_uniform();
    s.record_commands();
    s.complete_submit(true);
    assert!(s.in_flight);
    s.begin_present();
    s.complete_present(true);
    assert!(s.in_flight);
    // a timeout within the retry budget keeps the submission in flight
    s.complete_fence_wait(false);
    assert!(s.in_flight);
    assert_eq!(s.phase, Phase::WaitingForCompletion);
    s.complete_fence_wait(true);
    assert!(!s.in_flight);
}

#[test]
fn drain_on_exit_after_close_request() {
    // A close request observed at idle leads to teardown only once the
    // in-flight frame has been drained through present, fence and reset.
    let mut s = FrameSynchronizer::new(640, 480, 2, 0);
    run_one_frame(&mut s, 0);
    s.note_close_requested();
    assert!(s.close_requested);
    assert!(!s.in_flight);
    assert_eq!(s.next_action(), Action::TearDown);
    s.teardown();
    assert_eq!(s.phase, Phase::Done);
}

#[test]
fn close_request_drains_current_frame() {
    // A close request arriving before an iteration still lets the frame
    // protocol finish the in-flight work before teardown.
    let mut s = FrameSynchronizer::new(640, 480, 2, 0);
    run_one_frame(&mut s, 0);
    s.note_close_requested();
    // the next action at idle is teardown, never a new acquire
    assert_eq!(s.next_action(), Action::TearDown);
}

#[test]
fn resize_rebuilds_before_next_acquire() {
    let mut s = FrameSynchronizer::new(1024, 768, 2, 0);
    run_one_frame(&mut s, 0);
    s.note_resized(800, 600);
    assert!(s.needs_rebuild);
    assert_eq!(s.surface_w, 800);
    assert_eq!(s.surface_h, 600);
    // stale targets: the driver is told to rebuild, not to acquire
    assert_eq!(s.next_action(), Action::RebuildSwapchain);
    s.note_swapchain_rebuilt(3);
    assert!(!s.needs_rebuild);
    assert_eq!(s.target_w, 800);
    assert_eq!(s.target_h, 600);
    assert_eq!(s.slot_count, 3);
    // the next acquire/present cycle runs on the new targets
    assert_eq!(s.next_action(), Action::BeginFrame);
    run_one_frame(&mut s, 2);
    assert_eq!(s.target_w, 800);
    assert_eq!(s.target_h, 600);
}

#[test]
fn resize_to_same_dimensions_needs_no_rebuild() {
    let mut s = FrameSynchronizer::new(1024, 768, 2, 0);
    s.note_resized(1024, 768);
    assert!(!s.needs_rebuild);
    assert_eq!(s.next_action(), Action::BeginFrame);
}

#[test]
fn acquire_out_of_date_is_recoverable() {
    let mut s = FrameSynchronizer::new(1024, 768, 2, 0);
    s.begin_acquire();
    s.note_acquire_out_of_date();
    assert_eq!(s.phase, Phase::Idle);
    assert!(s.needs_rebuild);
    assert_eq!(s.next_action(), Action::RebuildSwapchain);
    s.note_swapchain_rebuilt(2);
    run_one_frame(&mut s, 0);
}

#[test]
fn present_out_of_date_still_drains_then_rebuilds() {
    let mut s = FrameSynchronizer::new(1024, 768, 2, 0);
    s.begin_acquire();
    s.complete_acquire(0);
    s.acquire_encoder();
    s.write_uniform();
    s.record_commands();
    s.complete_submit(true);
    s.begin_present();
    s.complete_present(false);
    // the frame is still drained through the fence
    assert_eq!(s.phase, Phase::WaitingForCompletion);
    assert!(s.in_flight);
    s.complete_fence_wait(true);
    s.reset_pool();
    assert_eq!(s.phase, Phase::Idle);
    assert!(s.needs_rebuild);
    assert_eq!(s.next_action(), Action::RebuildSwapchain);
}

#[test]
fn fence_timeouts_exhaust_to_fatal() {
    let mut s = FrameSynchronizer::new(640, 480, 2, 2);
    s.begin_acquire();
    s.complete_acquire(0);
    s.acquire_encoder();
    s.write_uniform();
    s.record_commands();
    s.complete_submit(true);
    s.begin_present();
    s.complete_present(true);
    assert_eq!(s.retries_left, 2);
    s.complete_fence_wait(false);
    assert_eq!(s.retries_left, 1);
    assert_eq!(s.phase, Phase::WaitingForCompletion);
    s.complete_fence_wait(false);
    assert_eq!(s.retries_left, 0);
    assert_eq!(s.phase, Phase::WaitingForCompletion);
    s.complete_fence_wait(false);
    assert_eq!(s.phase, Phase::Failed);
    assert_eq!(s.next_action(), Action::Abort);
}

#[test]
fn submission_failure_is_fatal() {
    let mut s = FrameSynchronizer::new(640, 480, 2, 0);
    s.begin_acquire();
    s.complete_acquire(0);
    s.acquire_encoder();
    s.write_uniform();
    s.record_commands();
    s.complete_submit(false);
    assert_eq!(s.phase, Phase::Failed);
    assert_eq!(s.next_action(), Action::Abort);
}

#[test]
fn angle_wraps_at_full_turn() {
    let mut s = FrameSynchronizer::new(640, 480, 1, 0);
    assert_eq!(s.angle_deg, 45);
    for _ in 0..315 {
        s.advance_angle();
    }
    assert_eq!(s.angle_deg, 0);
    s.advance_angle();
    assert_eq!(s.angle_deg, 1);
}

#[test]
fn semaphore_signals_consumed_once() {
    let mut s = FrameSynchronizer::new(640, 480, 2, 0);
    s.begin_acquire();
    s.complete_acquire(0);
    // image-available carries a pending signal until the submission waits on it
    assert!(s.image_sem);
    assert!(!s.render_sem);
    s.acquire_encoder();
    s.write_uniform();
    s.record_commands();
    s.complete_submit(true);
    // submit consumed image-available and signaled render-done
    assert!(!s.image_sem);
    assert!(s.render_sem);
    s.begin_present();
    s.complete_present(true);
    // present consumed render-done
    assert!(!s.render_sem);
    s.complete_fence_wait(true);
    s.reset_pool();
}

#[test]
fn next_action_walks_recording_substeps() {
    let mut s = FrameSynchronizer::new(640, 480, 2, 0);
    assert_eq!(s.next_action(), Action::BeginFrame);
    s.begin_acquire();
    assert_eq!(s.next_action(), Action::AwaitAcquire);
    s.complete_acquire(1);
    assert_eq!(s.next_action(), Action::AcquireEncoder);
    s.acquire_encoder();
    assert_eq!(s.next_action(), Action::WriteUniform);
    s.write_uniform();
    assert_eq!(s.next_action(), Action::RecordCommands);
    s.record_commands();
    assert_eq!(s.next_action(), Action::Submit);
    s.complete_submit(true);
    assert_eq!(s.next_action(), Action::Present);
    s.begin_present();
    assert_eq!(s.next_action(), Action::AwaitPresent);
    s.complete_present(true);
    assert_eq!(s.next_action(), Action::WaitFence);
    s.complete_fence_wait(true);
    assert_eq!(s.next_action(), Action::ResetPool);
    s.reset_pool();
    assert_eq!(s.acquired, 1);
    assert_eq!(s.next_action(), Action::BeginFrame);
}
