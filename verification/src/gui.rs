//! The GUI overlay bridge: it accumulates input state from translated
//! windowing events and enforces the per-frame declaration protocol.
//!
//! Each displayed frame must run `begin_frame`, then `declare_ui`, then
//! `render_into`, in that order. Declaring or rendering out of order is an
//! error, never silently accepted: in particular, declaring the UI twice
//! without an intervening `begin_frame` is rejected.

use vstd::prelude::*;

use crate::geom::Extent;
use crate::geom::Pos;
use crate::gui_desc::InputState;
use crate::gui_desc::UiDescription;
use crate::gui_desc::build_ui_description;
use crate::gui_desc::ui_describes;
use crate::driver::LoopEvent;

verus! {

/// Where the overlay stands inside the current frame.
#[derive(Clone, Copy, Debug, PartialEq, Eq, Structural)]
pub enum Phase {
    /// No frame is underway.
    Idle,
    /// `begin_frame` has run; the UI may be declared once.
    Begun,
    /// The UI has been declared and waits to be rendered.
    Declared,
}

/// Why a protocol call was rejected.
#[derive(Clone, Copy, Debug, PartialEq, Eq, Structural)]
pub enum GuiError {
    /// `declare_ui` was called without a preceding `begin_frame` in the
    /// same frame (also the error for declaring twice in a row).
    DeclareWithoutBegin,
    /// `render_into` was called without a completed `begin_frame` and
    /// `declare_ui` pair in the same frame.
    RenderWithoutDeclare,
}

/// The overlay bridge: the toolkit's input accumulator, the extent and
/// frame-time the current frame was begun with, and the protocol phase.
#[derive(Clone, Copy, Debug, PartialEq, Eq, Structural)]
pub struct GuiOverlay {
    pub phase: Phase,
    pub input: InputState,
    pub frame_size: Extent,
    pub delta_ms: u64,
}

/// How one windowing event changes the accumulated input state: pointer
/// movement updates the pointer position; every other event leaves the
/// accumulator's modelled part unchanged.
pub open spec fn translated(i: InputState, e: LoopEvent) -> InputState {
    match e {
        LoopEvent::CursorMoved(x, y) => InputState { pointer: Pos { x, y } },
        _ => i,
    }
}

/// Whether `declare_ui` accepts in this state.
pub open spec fn declare_accepted(g: GuiOverlay) -> bool {
    g.phase == Phase::Begun
}

/// The overlay state after a `declare_ui` call: an accepted declaration
/// moves the phase on; a rejected one changes nothing.
pub open spec fn after_declare(g: GuiOverlay) -> GuiOverlay {
    if declare_accepted(g) {
        GuiOverlay { phase: Phase::Declared, ..g }
    } else {
        g
    }
}

impl GuiOverlay {
    /// A fresh overlay: nothing begun, pointer at the origin.
    pub fn new() -> (g: GuiOverlay)
        ensures
            g.phase == Phase::Idle,
            g.input == (InputState { pointer: Pos { x: 0u32, y: 0u32 } }),
            g.frame_size == (Extent { width: 0u32, height: 0u32 }),
            g.delta_ms == 0,
    {
        GuiOverlay {
            phase: Phase::Idle,
            input: InputState { pointer: Pos { x: 0, y: 0 } },
            frame_size: Extent { width: 0, height: 0 },
            delta_ms: 0,
        }
    }

    /// Feed one windowing event into the input accumulator. Runs for every
    /// event, whether or not the frame driver recognised it; it never
    /// touches the frame protocol.
    pub fn translate_event(&mut self, e: &LoopEvent)
        ensures
            final(self).input == translated(old(self).input, *e),
            final(self).phase == old(self).phase,
            final(self).frame_size == old(self).frame_size,
            final(self).delta_ms == old(self).delta_ms,
    {
        match e {
            LoopEvent::CursorMoved(x, y) => {
                self.input = InputState { pointer: Pos { x: *x, y: *y } };
            },
            _ => {},
        }
    }

    /// Start a new GUI frame for the given window extent and the time
    /// elapsed since the last frame. Must precede any declaration in the
    /// same frame; it supersedes whatever state the previous frame left.
    pub fn begin_frame(&mut self, window: Extent, delta_ms: u64)
        ensures
            final(self).phase == Phase::Begun,
            final(self).frame_size == window,
            final(self).delta_ms == delta_ms,
            final(self).input == old(self).input,
    {
        self.phase = Phase::Begun;
        self.frame_size = window;
        self.delta_ms = delta_ms;
    }

    /// Declare this frame's UI: the fixed panel sequence and docking
    /// layout for the extent the frame was begun with. Rejected unless a
    /// `begin_frame` immediately precedes it in this frame — declaring
    /// twice in a row is an error, not silently accepted.
    pub fn declare_ui(&mut self) -> (r: Result<UiDescription, GuiError>)
        ensures
            *final(self) == after_declare(*old(self)),
            declare_accepted(*old(self)) ==> r.is_ok()
                && ui_describes(r.unwrap(), old(self).frame_size, old(self).input),
            !declare_accepted(*old(self)) ==> r == Err::<UiDescription, GuiError>(
                GuiError::DeclareWithoutBegin,
            ),
    {
        match self.phase {
            Phase::Begun => {
                self.phase = Phase::Declared;
                Ok(build_ui_description(self.frame_size, self.input))
            },
            _ => Err(GuiError::DeclareWithoutBegin),
        }
    }

    /// Convert the declared UI into draw commands for the open render
    /// pass. Rejected unless a `begin_frame`/`declare_ui` pair precedes it
    /// in this frame; success consumes the frame, returning the overlay to
    /// idle.
    pub fn render_into(&mut self) -> (r: Result<(), GuiError>)
        ensures
            old(self).phase == Phase::Declared ==> r == Ok::<(), GuiError>(())
                && *final(self) == (GuiOverlay { phase: Phase::Idle, ..*old(self) }),
            old(self).phase != Phase::Declared ==> r == Err::<(), GuiError>(
                GuiError::RenderWithoutDeclare,
            ) && *final(self) == *old(self),
    {
        match self.phase {
            Phase::Declared => {
                self.phase = Phase::Idle;
                Ok(())
            },
            _ => Err(GuiError::RenderWithoutDeclare),
        }
    }
}

/// Declaring the UI twice in a row without an intervening `begin_frame` is
/// rejected: from any state that accepts a declaration, the state after
/// that declaration accepts no second one, and the second call's error is
/// `DeclareWithoutBegin`.
pub proof fn lemma_declare_twice_rejected(g: GuiOverlay)
    requires
        declare_accepted(g),
    ensures
        !declare_accepted(after_declare(g)),
        after_declare(after_declare(g)) == after_declare(g),
{
}

} // verus!
