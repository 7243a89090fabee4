use gaia_core::{
    AcquireResult, BeginError, FrameSync, ImageHandle, LoopAction, LoopEvent, PresentError,
    PresentLoop, PresentOutcome, PresentResult, RetireError,
};

fn acquired(image_index: u32) -> AcquireResult {
    AcquireResult::Acquired { image_index, suboptimal: false }
}

fn presented() -> PresentResult {
    PresentResult::Presented { suboptimal: false }
}

/// Runs one full frame; the host is taken to have waited on the slot's fence.
fn frame(sync: &mut FrameSync, image_index: u32) {
    let slot = sync.current_slot();
    let token = sync.begin_frame(acquired(image_index)).unwrap();
    assert_eq!(token.slot, slot);
    assert_eq!(sync.end_frame(token, presented()), Ok(PresentOutcome::Presented));
}

#[test]
fn first_frames_never_wait() {
    let mut sync = FrameSync::new(3, 4);
    for k in 0..3u32 {
        assert_eq!(sync.current_slot(), k as usize);
        assert!(!sync.slot(k as usize).in_flight);
        frame(&mut sync, k);
    }
    assert_eq!(sync.current_slot(), 0);
    assert!(sync.slot(0).in_flight);
    assert_eq!(sync.in_flight_slots(), vec![0, 1, 2]);
}

#[test]
fn slot_comes_back_after_frames_in_flight() {
    let mut sync = FrameSync::new(2, 3);
    frame(&mut sync, 0);
    frame(&mut sync, 1);
    assert_eq!(sync.current_slot(), 0);
    // The host waited on slot 0's fence: begin_frame records it signalled.
    let token = sync.begin_frame(acquired(2)).unwrap();
    assert_eq!(token.slot, 0);
    assert!(!sync.slot(0).in_flight);
    assert!(sync.slot(1).in_flight);
}

#[test]
fn out_of_date_on_fifth_frame_then_retry() {
    let mut sync = FrameSync::new(2, 3);
    for k in 0..5u32 {
        frame(&mut sync, k % 3);
    }
    assert_eq!(sync.begin_frame(AcquireResult::OutOfDate), Err(BeginError::NeedsRecreate));
    assert_eq!(sync.open_frame(), None);
    // Recreation: drain every fence, then retire the old swapchain.
    assert_eq!(sync.retire_swapchain(3), Err(RetireError::FramesInFlight));
    for slot in sync.in_flight_slots() {
        sync.fence_signaled(slot);
    }
    assert!(!sync.has_frames_in_flight());
    assert_eq!(sync.retire_swapchain(4), Ok(0));
    assert_eq!(sync.generation(), 1);
    assert_eq!(sync.image_count(), 4);
    let token = sync.begin_frame(acquired(3)).unwrap();
    assert_eq!(token.image, ImageHandle { index: 3, generation: 1 });
    assert!(sync.is_current(token.image));
    assert!(!sync.is_current(ImageHandle { index: 0, generation: 0 }));
    assert_eq!(sync.end_frame(token, presented()), Ok(PresentOutcome::Presented));
}

#[test]
fn retire_refused_while_a_fence_is_unsignalled() {
    let mut sync = FrameSync::new(2, 2);
    frame(&mut sync, 0);
    assert_eq!(sync.retire_swapchain(2), Err(RetireError::FramesInFlight));
    assert_eq!(sync.generation(), 0);
    sync.fence_signaled(0);
    assert_eq!(sync.retire_swapchain(2), Ok(0));
    for slot in 0..sync.frames_in_flight() {
        assert!(!sync.slot(slot).in_flight);
    }
}

#[test]
fn retire_refused_while_a_frame_is_open() {
    let mut sync = FrameSync::new(2, 2);
    let token = sync.begin_frame(acquired(1)).unwrap();
    assert_eq!(sync.retire_swapchain(2), Err(RetireError::FrameOpen));
    assert_eq!(sync.open_frame(), Some(token));
    assert_eq!(sync.end_frame(token, presented()), Ok(PresentOutcome::Presented));
}

#[test]
fn suboptimal_acquire_needs_recreate() {
    let mut sync = FrameSync::new(2, 2);
    let r = sync.begin_frame(AcquireResult::Acquired { image_index: 0, suboptimal: true });
    assert_eq!(r, Err(BeginError::NeedsRecreate));
    assert_eq!(sync.current_slot(), 0);
}

#[test]
fn acquire_failures_are_fatal() {
    let mut sync = FrameSync::new(2, 2);
    assert_eq!(sync.begin_frame(AcquireResult::Failed), Err(BeginError::AcquireFailed));
    assert_eq!(sync.begin_frame(acquired(2)), Err(BeginError::AcquireFailed));
    assert_eq!(sync.open_frame(), None);
}

#[test]
fn present_outcomes() {
    let mut sync = FrameSync::new(3, 3);
    let t = sync.begin_frame(acquired(0)).unwrap();
    assert_eq!(
        sync.end_frame(t, PresentResult::Presented { suboptimal: true }),
        Ok(PresentOutcome::RecreateNext)
    );
    let t = sync.begin_frame(acquired(1)).unwrap();
    assert_eq!(sync.end_frame(t, PresentResult::OutOfDate), Ok(PresentOutcome::RecreateNext));
    let t = sync.begin_frame(acquired(2)).unwrap();
    assert_eq!(sync.end_frame(t, PresentResult::Failed), Err(PresentError::PresentFailed));
    // The frame was submitted all the same: its slot is in flight.
    assert!(sync.slot(2).in_flight);
    assert_eq!(sync.current_slot(), 0);
}

#[test]
fn resize_defers_recreation_to_boundary() {
    let mut lp = PresentLoop::new();
    assert_eq!(lp.update(LoopEvent::FrameBoundary), LoopAction::RenderFrame);
    assert_eq!(lp.update(LoopEvent::Resized), LoopAction::Wait);
    assert!(lp.recreate_pending);
    assert_eq!(lp.update(LoopEvent::Other), LoopAction::Wait);
    assert_eq!(lp.update(LoopEvent::FrameBoundary), LoopAction::Recreate);
    assert_eq!(lp.recreate_done(true), LoopAction::RenderFrame);
    assert!(!lp.recreate_pending);
    assert_eq!(lp.update(LoopEvent::FrameBoundary), LoopAction::RenderFrame);
}

#[test]
fn skipped_recreation_stays_pending() {
    let mut lp = PresentLoop::new();
    lp.request_recreate();
    assert_eq!(lp.update(LoopEvent::FrameBoundary), LoopAction::Recreate);
    assert_eq!(lp.recreate_done(false), LoopAction::Wait);
    assert_eq!(lp.update(LoopEvent::FrameBoundary), LoopAction::Recreate);
}

#[test]
fn close_shuts_down_once() {
    let mut lp = PresentLoop::new();
    assert_eq!(lp.update(LoopEvent::CloseRequested), LoopAction::Shutdown);
    assert!(lp.exiting);
    assert_eq!(lp.update(LoopEvent::FrameBoundary), LoopAction::Wait);
    assert_eq!(lp.update(LoopEvent::CloseRequested), LoopAction::Wait);
    assert_eq!(lp.update(LoopEvent::Resized), LoopAction::Wait);
    assert!(!lp.recreate_pending);
}
