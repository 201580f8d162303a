//! A verified model of a single-window frame lifecycle: a presentation
//! context that must track the window's client area, an immutable draw
//! pipeline, an immediate-mode GUI overlay with a per-frame declaration
//! protocol, and the event-driven frame driver that ties them together.
//!
//! The library holds the decisions and the per-frame bookkeeping; the
//! binary around it performs the actual GPU and windowing calls and
//! mirrors every decision the library hands back.

pub mod dock;
pub mod driver;
pub mod geom;
pub mod gui;
pub mod gui_desc;
pub mod pipeline;
pub mod present;
pub mod session;
