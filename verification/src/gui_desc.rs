//! The UI declared each frame: a fixed sequence of panels plus the docking
//! layout. Nothing here persists across frames; the whole description is a
//! pure function of the current window extent and the accumulated input
//! state, rebuilt on every frame.

use vstd::prelude::*;

use crate::dock::DockLayout;
use crate::dock::dock_layout_for;
use crate::dock::build_dock_layout;
use crate::geom::Extent;
use crate::geom::Pos;

verus! {

/// The panels the overlay declares, one variant per panel.
#[derive(Clone, Copy, Debug, PartialEq, Eq, Structural)]
pub enum PanelKind {
    /// The toolkit's demo/showcase panel.
    Demo,
    /// The first informational panel; shows the live pointer position.
    InfoHello,
    /// The second informational panel; shows a frame-time placeholder.
    InfoFrametime,
    /// The full-window backdrop, declared last so the docked panels are
    /// created first.
    Backdrop,
}

/// One declared panel: its kind and its first-use size and position hints.
/// A hint of `None` leaves the choice to the toolkit.
#[derive(Clone, Copy, Debug, PartialEq, Eq)]
pub struct PanelDecl {
    pub kind: PanelKind,
    pub size_hint: Option<Extent>,
    pub pos_hint: Option<Pos>,
}

/// The accumulated GUI input state, fed one windowing event at a time.
/// The overlay reads the pointer position back out of it each frame.
#[derive(Clone, Copy, Debug, PartialEq, Eq, Structural)]
pub struct InputState {
    pub pointer: Pos,
}

/// The whole UI declared for one frame: the panels in declaration order
/// (declaration order decides z-order and docking resolution), the docking
/// layout, and the pointer position the first info panel displays.
#[derive(Debug, PartialEq, Eq)]
pub struct UiDescription {
    pub panels: Vec<PanelDecl>,
    pub dock: DockLayout,
    pub pointer: Pos,
}

/// The demo panel: no hints, the toolkit sizes it.
pub open spec fn demo_panel() -> PanelDecl {
    PanelDecl { kind: PanelKind::Demo, size_hint: None, pos_hint: None }
}

/// The first info panel: 300 by 100 on first use, position left to the
/// toolkit.
pub open spec fn info_hello_panel() -> PanelDecl {
    PanelDecl {
        kind: PanelKind::InfoHello,
        size_hint: Some(Extent { width: 300u32, height: 100u32 }),
        pos_hint: None,
    }
}

/// The second info panel: 400 by 200 at position (400, 200) on first use.
pub open spec fn info_frametime_panel() -> PanelDecl {
    PanelDecl {
        kind: PanelKind::InfoFrametime,
        size_hint: Some(Extent { width: 400u32, height: 200u32 }),
        pos_hint: Some(Pos { x: 400u32, y: 200u32 }),
    }
}

/// The backdrop: sized to the whole window, at the origin.
pub open spec fn backdrop_panel(window: Extent) -> PanelDecl {
    PanelDecl {
        kind: PanelKind::Backdrop,
        size_hint: Some(window),
        pos_hint: Some(Pos { x: 0u32, y: 0u32 }),
    }
}

/// What a frame's UI description must be for a window extent and input
/// state: exactly the four fixed panels in declaration order, the backdrop
/// last, the docking layout for the window, and the pointer position as
/// accumulated from the events seen so far.
pub open spec fn ui_describes(d: UiDescription, window: Extent, input: InputState) -> bool {
    &&& d.panels@.len() == 4
    &&& d.panels@[0] == demo_panel()
    &&& d.panels@[1] == info_hello_panel()
    &&& d.panels@[2] == info_frametime_panel()
    &&& d.panels@[3] == backdrop_panel(window)
    &&& d.dock == dock_layout_for(window)
    &&& d.pointer == input.pointer
}

/// Build the frame's UI description from the current window extent and
/// input state.
pub fn build_ui_description(window: Extent, input: InputState) -> (d: UiDescription)
    ensures
        ui_describes(d, window, input),
{
    let mut panels: Vec<PanelDecl> = Vec::new();
    panels.push(PanelDecl { kind: PanelKind::Demo, size_hint: None, pos_hint: None });
    panels.push(PanelDecl {
        kind: PanelKind::InfoHello,
        size_hint: Some(Extent { width: 300, height: 100 }),
        pos_hint: None,
    });
    panels.push(PanelDecl {
        kind: PanelKind::InfoFrametime,
        size_hint: Some(Extent { width: 400, height: 200 }),
        pos_hint: Some(Pos { x: 400, y: 200 }),
    });
    panels.push(PanelDecl {
        kind: PanelKind::Backdrop,
        size_hint: Some(window),
        pos_hint: Some(Pos { x: 0, y: 0 }),
    });
    UiDescription { panels, dock: build_dock_layout(window), pointer: input.pointer }
}

} // verus!
