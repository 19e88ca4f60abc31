//! The frame synchronization engine's acquire/submit/present protocol.

use titan_engine::frame::FrameEngine;

#[test]
fn fresh_engine_starts_at_slot_zero() {
    let engine = FrameEngine::new(2, 3);
    assert_eq!(engine.frame_count(), 2);
    assert_eq!(engine.image_count(), 3);
    assert_eq!(engine.frame_index(), 0);
}

#[test]
fn first_frame_waits_only_its_own_fence() {
    let mut engine = FrameEngine::new(2, 3);
    let plan = engine.render(0);
    assert_eq!(plan.frame_slot, 0);
    assert_eq!(plan.first_wait_fence, 0);
    assert_eq!(plan.extra_wait_fence, None);
    assert_eq!(plan.image_index, 0);
    assert_eq!(plan.command_buffer_index, 0);
    assert_eq!(plan.wait_semaphore, 0);
    assert_eq!(plan.signal_semaphore, 0);
    assert_eq!(plan.reset_and_signal_fence, 0);
    assert_eq!(engine.frame_index(), 1);
}

#[test]
fn ring_wraps_around() {
    let mut engine = FrameEngine::new(2, 3);
    let _ = engine.render(0);
    assert_eq!(engine.frame_index(), 1);
    let _ = engine.render(1);
    assert_eq!(engine.frame_index(), 0);
    let _ = engine.render(2);
    assert_eq!(engine.frame_index(), 1);
}

#[test]
fn third_call_blocks_on_fence_owning_reacquired_image() {
    // Two frame slots, three swapchain images. The third call reacquires
    // image 1, which frame fence 1 still owns: the plan must block on
    // that fence before submitting.
    let mut engine = FrameEngine::new(2, 3);
    let first = engine.render(0);
    assert_eq!(first.extra_wait_fence, None);
    let second = engine.render(1);
    assert_eq!(second.frame_slot, 1);
    assert_eq!(second.extra_wait_fence, None);
    let third = engine.render(1);
    assert_eq!(third.frame_slot, 0);
    assert_eq!(third.extra_wait_fence, Some(1));
}

#[test]
fn reacquiring_own_image_waits_on_own_fence() {
    let mut engine = FrameEngine::new(2, 2);
    let _ = engine.render(0);
    let _ = engine.render(1);
    // Slot 0 reacquires image 0, which slot 0 itself still owns.
    let plan = engine.render(0);
    assert_eq!(plan.frame_slot, 0);
    assert_eq!(plan.extra_wait_fence, Some(0));
}

#[test]
fn single_slot_ring() {
    let mut engine = FrameEngine::new(1, 2);
    let first = engine.render(0);
    assert_eq!(first.frame_slot, 0);
    let second = engine.render(0);
    assert_eq!(second.frame_slot, 0);
    assert_eq!(second.extra_wait_fence, Some(0));
}

#[test]
fn fences_track_outstanding_submissions() {
    // A slot's fence reads unsignaled exactly while that slot has a
    // submission whose completion was not yet waited on.
    let mut engine = FrameEngine::new(3, 3);
    assert_eq!(engine.fence_observed_signaled(0), Some(true));
    assert_eq!(engine.fence_observed_signaled(1), Some(true));
    assert_eq!(engine.fence_observed_signaled(2), Some(true));
    assert_eq!(engine.fence_observed_signaled(3), None);
    let _ = engine.render(0);
    assert_eq!(engine.fence_observed_signaled(0), Some(false));
    assert_eq!(engine.fence_observed_signaled(1), Some(true));
    let _ = engine.render(1);
    assert_eq!(engine.fence_observed_signaled(0), Some(false));
    assert_eq!(engine.fence_observed_signaled(1), Some(false));
    engine.wait_idle();
    assert_eq!(engine.fence_observed_signaled(0), Some(true));
    assert_eq!(engine.fence_observed_signaled(1), Some(true));
    // Reusing slot 0 waits on its fence before the new submission
    // leaves it unsignaled again.
    let _ = engine.render(2);
    let _ = engine.render(0);
    let _ = engine.render(1);
    assert_eq!(engine.fence_observed_signaled(2), Some(false));
}

#[test]
fn wait_idle_completes_everything() {
    let mut engine = FrameEngine::new(3, 3);
    let _ = engine.render(0);
    let _ = engine.render(1);
    engine.wait_idle();
    // The engine is still usable afterwards; the next frame continues
    // the ring where it left off.
    let plan = engine.render(2);
    assert_eq!(plan.frame_slot, 2);
}
