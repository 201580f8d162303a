//! Plain integer geometry: window client-area sizes and panel positions,
//! measured in physical pixels.

use vstd::prelude::*;

verus! {

/// A width/height pair in physical pixels, as reported by the windowing
/// system for the client area.
#[derive(Clone, Copy, Debug, PartialEq, Eq, Structural)]
pub struct Extent {
    pub width: u32,
    pub height: u32,
}

impl Extent {
    /// Both dimensions are at least one pixel: a zero-sized client area
    /// never reaches the presentation layer.
    pub open spec fn is_nonzero(self) -> bool {
        self.width >= 1 && self.height >= 1
    }

    pub fn new(width: u32, height: u32) -> (e: Extent)
        ensures
            e.width == width,
            e.height == height,
    {
        Extent { width, height }
    }
}

/// A top-left corner position in physical pixels.
#[derive(Clone, Copy, Debug, PartialEq, Eq, Structural)]
pub struct Pos {
    pub x: u32,
    pub y: u32,
}

impl Pos {
    pub fn new(x: u32, y: u32) -> (p: Pos)
        ensures
            p.x == x,
            p.y == y,
    {
        Pos { x, y }
    }
}

} // verus!
