//! The frame driver's event dispatch: one decision per delivered event.
//!
//! The event loop around the library hands every event in, performs the
//! action handed back, and separately forwards the same event to the GUI
//! overlay's input accumulator. The loop terminates only on a close
//! request or an Escape key press; every other event either drives the
//! render/resize cycle or is dropped with no effect.

use vstd::prelude::*;

use crate::geom::Extent;

verus! {

/// A pressed or released key, reduced to what the driver decides on: the
/// Escape key terminates the loop, every other key does nothing.
#[derive(Clone, Copy, Debug, PartialEq, Eq, Structural)]
pub enum Key {
    Escape,
    Other,
}

/// One event delivered by the OS event loop, reduced to the fields the
/// driver and the GUI input accumulator read.
#[derive(Clone, Copy, Debug, PartialEq, Eq, Structural)]
pub enum LoopEvent {
    /// The window asks to be redrawn.
    RedrawRequested,
    /// All pending events of this cycle are processed.
    MainEventsCleared,
    /// The user asked to close the window.
    CloseRequested,
    /// A key went down.
    KeyPressed(Key),
    /// A key came up.
    KeyReleased(Key),
    /// The client area changed size.
    Resized(Extent),
    /// The display scale changed; carries the new client-area extent.
    ScaleFactorChanged(Extent),
    /// The pointer moved to this position, in physical pixels.
    CursorMoved(u32, u32),
    /// Any event the driver does not recognise.
    Other,
}

/// What the event loop must do next.
#[derive(Clone, Copy, Debug, PartialEq, Eq, Structural)]
pub enum Action {
    /// Render one frame into the next presentable image.
    Render,
    /// Ask the window for the next redraw (free-running render loop).
    RequestRedraw,
    /// Leave the event loop and exit cleanly.
    Exit,
    /// Rebuild the real presentation queue for this client-area extent,
    /// mirroring the rebuild the library has recorded.
    Rebuild(Extent),
    /// Drop the event with no effect.
    Ignore,
}

/// The driver's decision for one event. A redraw request renders; an
/// emptied event cycle requests the next redraw; a close request or an
/// Escape key press exits; a size or scale change rebuilds; everything
/// else is ignored.
pub open spec fn decide(e: LoopEvent) -> Action {
    match e {
        LoopEvent::RedrawRequested => Action::Render,
        LoopEvent::MainEventsCleared => Action::RequestRedraw,
        LoopEvent::CloseRequested => Action::Exit,
        LoopEvent::KeyPressed(k) => if k == Key::Escape {
            Action::Exit
        } else {
            Action::Ignore
        },
        LoopEvent::Resized(size) => Action::Rebuild(size),
        LoopEvent::ScaleFactorChanged(size) => Action::Rebuild(size),
        _ => Action::Ignore,
    }
}

/// Decide what to do with one event.
pub fn dispatch(e: &LoopEvent) -> (a: Action)
    ensures
        a == decide(*e),
{
    match e {
        LoopEvent::RedrawRequested => Action::Render,
        LoopEvent::MainEventsCleared => Action::RequestRedraw,
        LoopEvent::CloseRequested => Action::Exit,
        LoopEvent::KeyPressed(k) => match k {
            Key::Escape => Action::Exit,
            Key::Other => Action::Ignore,
        },
        LoopEvent::Resized(size) => Action::Rebuild(*size),
        LoopEvent::ScaleFactorChanged(size) => Action::Rebuild(*size),
        _ => Action::Ignore,
    }
}

/// A close request and an Escape key press each terminate the loop, and
/// nothing else does: no other key press, no key release (Escape's
/// included), and no other event decides `Exit`.
pub proof fn lemma_exit_only_on_close_or_escape(e: LoopEvent)
    ensures
        decide(e) == Action::Exit <==> (e == LoopEvent::CloseRequested
            || e == LoopEvent::KeyPressed(Key::Escape)),
{
}

} // verus!
