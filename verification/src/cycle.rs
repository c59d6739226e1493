//! The frame cycle: the event-loop protocol around the window.
//!
//! The cycle has two live states. In `Idle` nothing is allocated; the
//! first resume of the application creates the window's components and
//! moves to `Ready`. In `Ready` the window self-loops: a platform resize
//! notification reallocates surface and buffer (staying `Ready` with the
//! stale dimensions if that fails, so the caller can retry on the next
//! notification), and a redraw request draws, presents, and asks for the
//! next redraw — the continuous-redraw policy. A close request releases
//! both components and ends the cycle.
//!
//! The step function here is the decision half of that loop: it maps the
//! current state and an incoming platform event to the next state and the
//! action the event-loop driver must perform. The driver performs the
//! action (create, resize, draw and present, release) against the window
//! and the platform, and feeds the next event back in.

use vstd::prelude::*;

verus! {

/// Where the frame cycle stands.
#[derive(Clone, Copy, Debug, PartialEq, Eq, Structural)]
pub enum FrameState {
    /// No surface or buffer exists yet.
    Idle,
    /// Surface and buffer exist and match; frames can be drawn.
    Ready,
    /// The window was closed and both components released.
    Closed,
}

/// A platform event, as the event loop delivers it.
#[derive(Clone, Copy, Debug, PartialEq, Eq, Structural)]
pub enum FrameEvent {
    /// The application was (re)started.
    Resumed,
    /// The application was sent to the background.
    Suspended,
    /// The platform reports a new window size.
    Resized,
    /// The platform asks for the window to be redrawn.
    RedrawRequested,
    /// The user asked to close the window.
    CloseRequested,
}

/// What the event-loop driver must do in response to an event.
#[derive(Clone, Copy, Debug, PartialEq, Eq, Structural)]
pub enum FrameAction {
    /// Create the render surface and the presentation buffer at the
    /// window's current size.
    CreateComponents,
    /// Resize the render surface and then the presentation buffer; on a
    /// recoverable failure report the error and keep the stale state.
    ResizeComponents,
    /// Draw the frame, present it, and request the next redraw.
    DrawPresentAndRequestRedraw,
    /// Release the surface and the buffer; the cycle is over.
    ReleaseComponents,
    /// Nothing to do.
    Ignore,
}

/// The transition table of the frame cycle.
pub open spec fn spec_frame_step(s: FrameState, e: FrameEvent) -> (FrameState, FrameAction) {
    match (s, e) {
        (FrameState::Idle, FrameEvent::Resumed) => (FrameState::Ready, FrameAction::CreateComponents),
        (FrameState::Idle, FrameEvent::CloseRequested) => (FrameState::Closed, FrameAction::Ignore),
        (FrameState::Idle, _) => (FrameState::Idle, FrameAction::Ignore),
        (FrameState::Ready, FrameEvent::Resized) => (FrameState::Ready, FrameAction::ResizeComponents),
        (FrameState::Ready, FrameEvent::RedrawRequested) => (
            FrameState::Ready,
            FrameAction::DrawPresentAndRequestRedraw,
        ),
        (FrameState::Ready, FrameEvent::CloseRequested) => (
            FrameState::Closed,
            FrameAction::ReleaseComponents,
        ),
        (FrameState::Ready, _) => (FrameState::Ready, FrameAction::Ignore),
        (FrameState::Closed, _) => (FrameState::Closed, FrameAction::Ignore),
    }
}

/// Decide the next state of the frame cycle and the action to perform.
pub fn frame_step(s: FrameState, e: FrameEvent) -> (r: (FrameState, FrameAction))
    ensures
        r == spec_frame_step(s, e),
{
    match (s, e) {
        (FrameState::Idle, FrameEvent::Resumed) => (FrameState::Ready, FrameAction::CreateComponents),
        (FrameState::Idle, FrameEvent::CloseRequested) => (FrameState::Closed, FrameAction::Ignore),
        (FrameState::Idle, _) => (FrameState::Idle, FrameAction::Ignore),
        (FrameState::Ready, FrameEvent::Resized) => (FrameState::Ready, FrameAction::ResizeComponents),
        (FrameState::Ready, FrameEvent::RedrawRequested) => (
            FrameState::Ready,
            FrameAction::DrawPresentAndRequestRedraw,
        ),
        (FrameState::Ready, FrameEvent::CloseRequested) => (
            FrameState::Closed,
            FrameAction::ReleaseComponents,
        ),
        (FrameState::Ready, _) => (FrameState::Ready, FrameAction::Ignore),
        (FrameState::Closed, _) => (FrameState::Closed, FrameAction::Ignore),
    }
}

/// A closed cycle never comes back: every event leaves `Closed` in
/// `Closed` with nothing to do.
pub proof fn lemma_closed_is_terminal(e: FrameEvent)
    ensures
        spec_frame_step(FrameState::Closed, e) == (FrameState::Closed, FrameAction::Ignore),
{
}

} // verus!
