//! What the window's event loop does with each event it is handed.

use vstd::prelude::*;
use crate::coords::PixelDimensions;
use crate::error::RenderError;

verus! {

/// The window events the renderer reacts to.
#[derive(Clone, Copy, Debug, PartialEq, Eq, Structural)]
pub enum WindowEvent {
    /// The window asks for a new frame.
    RedrawRequested,
    /// The window now has this size.
    Resized(PixelDimensions),
    /// The user asked to close the window.
    CloseRequested,
    /// The loop has handled every pending event.
    AboutToWait,
    /// Anything else.
    Other,
}

/// What the event loop does next.
#[derive(Clone, Copy, Debug, PartialEq, Eq, Structural)]
pub enum EventAction {
    /// Compose and present a frame.
    Render,
    /// Record the new window size and resize the renderer to it.
    Resize(PixelDimensions),
    /// Leave the loop.
    Exit,
    /// Ask the window for another frame.
    RequestRedraw,
    /// Nothing.
    Ignore,
}

/// The action for `event`. A window shrunk to nothing (minimised) leaves
/// the renderer as it is, since no surface can be empty.
pub fn handle_window_event(event: WindowEvent) -> (r: EventAction)
    ensures
        r == match event {
            WindowEvent::RedrawRequested => EventAction::Render,
            WindowEvent::Resized(d) => if d.non_empty() {
                EventAction::Resize(d)
            } else {
                EventAction::Ignore
            },
            WindowEvent::CloseRequested => EventAction::Exit,
            WindowEvent::AboutToWait => EventAction::RequestRedraw,
            WindowEvent::Other => EventAction::Ignore,
        },
{
    match event {
        WindowEvent::RedrawRequested => EventAction::Render,
        WindowEvent::Resized(d) => {
            if d.width > 0 && d.height > 0 {
                EventAction::Resize(d)
            } else {
                EventAction::Ignore
            }
        },
        WindowEvent::CloseRequested => EventAction::Exit,
        WindowEvent::AboutToWait => EventAction::RequestRedraw,
        WindowEvent::Other => EventAction::Ignore,
    }
}

/// What to do after presenting failed.
#[derive(Clone, Copy, Debug, PartialEq, Eq, Structural)]
pub enum PresentRecovery {
    /// Reconfigure to the window's current size; the next frame presents.
    Resize(PixelDimensions),
    /// Wait: the window has no area to present into.
    Skip,
    /// Hand the error to the caller; it cannot be recovered from here.
    Fail(RenderError),
}

/// The recovery from a failed present in a window of size `window`: a lost
/// surface is reconfigured to the window's size (or left alone while the
/// window is empty); any other error, device loss above all, is propagated.
pub fn recover_from_present(error: RenderError, window: PixelDimensions) -> (r: PresentRecovery)
    ensures
        r == (if error == RenderError::SurfaceLost {
            if window.non_empty() {
                PresentRecovery::Resize(window)
            } else {
                PresentRecovery::Skip
            }
        } else {
            PresentRecovery::Fail(error)
        }),
{
    if error == RenderError::SurfaceLost {
        if window.width > 0 && window.height > 0 {
            PresentRecovery::Resize(window)
        } else {
            PresentRecovery::Skip
        }
    } else {
        PresentRecovery::Fail(error)
    }
}

} // verus!
