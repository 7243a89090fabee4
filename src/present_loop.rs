//! The outer loop's decisions: what to do on each window event, with
//! recreation deferred to a frame boundary and shutdown after a drain.

use vstd::prelude::*;

verus! {

/// The window events the loop reacts to.
#[derive(Clone, Copy, Debug, PartialEq, Eq, Structural)]
pub enum LoopEvent {
    CloseRequested,
    Resized,
    /// All pending window events were handled: a frame boundary.
    FrameBoundary,
    Other,
}

/// What the host does next.
#[derive(Clone, Copy, Debug, PartialEq, Eq, Structural)]
pub enum LoopAction {
    Wait,
    /// Drain the in-flight fences, retire the swapchain and create a new one,
    /// then report with `recreate_done`.
    Recreate,
    RenderFrame,
    /// Drain the in-flight fences, release the swapchain and the device, and stop.
    Shutdown,
}

/// The loop's state: a recreation is owed, and a close was requested.
#[derive(Clone, Copy, Debug, PartialEq, Eq, Structural)]
pub struct PresentLoop {
    pub recreate_pending: bool,
    pub exiting: bool,
}

pub open spec fn event_step(s: PresentLoop, e: LoopEvent) -> (PresentLoop, LoopAction) {
    if s.exiting {
        (s, LoopAction::Wait)
    } else {
        match e {
            LoopEvent::CloseRequested => (PresentLoop { exiting: true, ..s }, LoopAction::Shutdown),
            LoopEvent::Resized => (PresentLoop { recreate_pending: true, ..s }, LoopAction::Wait),
            LoopEvent::FrameBoundary => if s.recreate_pending {
                (s, LoopAction::Recreate)
            } else {
                (s, LoopAction::RenderFrame)
            },
            LoopEvent::Other => (s, LoopAction::Wait),
        }
    }
}

pub open spec fn recreate_done_step(s: PresentLoop, created: bool) -> (PresentLoop, LoopAction) {
    if created {
        (PresentLoop { recreate_pending: false, ..s }, LoopAction::RenderFrame)
    } else {
        (s, LoopAction::Wait)
    }
}

impl PresentLoop {
    pub fn new() -> (r: PresentLoop)
        ensures
            r == (PresentLoop { recreate_pending: false, exiting: false }),
    {
        PresentLoop { recreate_pending: false, exiting: false }
    }

    /// Handles one window event. A resize only marks recreation as owed; it
    /// happens at the next frame boundary. After a close nothing more is done.
    pub fn update(&mut self, event: LoopEvent) -> (r: LoopAction)
        ensures
            *final(self) == event_step(*old(self), event).0,
            r == event_step(*old(self), event).1,
    {
        if self.exiting {
            return LoopAction::Wait;
        }
        match event {
            LoopEvent::CloseRequested => {
                self.exiting = true;
                LoopAction::Shutdown
            },
            LoopEvent::Resized => {
                self.recreate_pending = true;
                LoopAction::Wait
            },
            LoopEvent::FrameBoundary => {
                if self.recreate_pending {
                    LoopAction::Recreate
                } else {
                    LoopAction::RenderFrame
                }
            },
            LoopEvent::Other => LoopAction::Wait,
        }
    }

    /// The frame protocol reported an out-of-date or suboptimal swapchain:
    /// recreate at the next frame boundary.
    pub fn request_recreate(&mut self)
        ensures
            *final(self) == (PresentLoop { recreate_pending: true, ..*old(self) }),
    {
        self.recreate_pending = true;
    }

    /// Reports a recreation: when it `created` a swapchain the debt is paid and
    /// the frame goes ahead; when it was skipped (a minimised window) the debt
    /// stays for a later boundary.
    pub fn recreate_done(&mut self, created: bool) -> (r: LoopAction)
        ensures
            *final(self) == recreate_done_step(*old(self), created).0,
            r == recreate_done_step(*old(self), created).1,
    {
        if created {
            self.recreate_pending = false;
            LoopAction::RenderFrame
        } else {
            LoopAction::Wait
        }
    }
}

} // verus!
