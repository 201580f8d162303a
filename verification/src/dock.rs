//! The docking layout declared every frame: a root region carved out of the
//! window with a fixed margin, split once into a left and a right leaf at a
//! 70/30 width ratio. The left leaf holds the demo panel and the first info
//! panel; the right leaf holds the second info panel.

use vstd::prelude::*;

use crate::geom::Extent;
use crate::gui_desc::PanelKind;

verus! {

/// Pixels trimmed from each window dimension to size the dock root region.
pub const DOCK_MARGIN: u32 = 100;

/// Numerator of the split ratio given to the left leaf, out of
/// `SPLIT_DENOM`.
pub const SPLIT_NUM: u32 = 7;

/// Denominator of the split ratio.
pub const SPLIT_DENOM: u32 = 10;

/// One leaf of the split: its extent and the panels docked into it, in
/// declaration order. A leaf docks at most two panels.
#[derive(Clone, Copy, Debug, PartialEq, Eq, Structural)]
pub struct DockLeaf {
    pub size: Extent,
    pub first: PanelKind,
    pub second: Option<PanelKind>,
}

/// The whole docking declaration: the root region at the window's origin
/// and its two leaves. Rebuilt from scratch every frame; nothing persists.
#[derive(Clone, Copy, Debug, PartialEq, Eq, Structural)]
pub struct DockLayout {
    pub root: Extent,
    pub left: DockLeaf,
    pub right: DockLeaf,
}

/// The dock root region for a window: each dimension less the margin,
/// clamped to one pixel so a small window never yields a negative or empty
/// region.
pub open spec fn dock_root_extent(window: Extent) -> Extent {
    Extent {
        width: if window.width > DOCK_MARGIN { (window.width - DOCK_MARGIN) as u32 } else { 1u32 },
        height: if window.height > DOCK_MARGIN { (window.height - DOCK_MARGIN) as u32 } else { 1u32 },
    }
}

/// The width of the left leaf: the floor of seven tenths of the root width.
pub open spec fn left_split_width(root_width: u32) -> u32 {
    ((root_width * SPLIT_NUM) as int / SPLIT_DENOM as int) as u32
}

/// The full docking declaration for a window.
pub open spec fn dock_layout_for(window: Extent) -> DockLayout {
    let root = dock_root_extent(window);
    let left_width = left_split_width(root.width);
    DockLayout {
        root,
        left: DockLeaf {
            size: Extent { width: left_width, height: root.height },
            first: PanelKind::Demo,
            second: Some(PanelKind::InfoHello),
        },
        right: DockLeaf {
            size: Extent { width: (root.width - left_width) as u32, height: root.height },
            first: PanelKind::InfoFrametime,
            second: None,
        },
    }
}

/// Build the docking declaration for the current window extent.
pub fn build_dock_layout(window: Extent) -> (d: DockLayout)
    ensures
        d == dock_layout_for(window),
{
    let root_width: u32 = if window.width > DOCK_MARGIN {
        window.width - DOCK_MARGIN
    } else {
        1
    };
    let root_height: u32 = if window.height > DOCK_MARGIN {
        window.height - DOCK_MARGIN
    } else {
        1
    };
    let left_width: u32 = ((root_width as u64 * SPLIT_NUM as u64) / SPLIT_DENOM as u64) as u32;
    let root = Extent { width: root_width, height: root_height };
    DockLayout {
        root,
        left: DockLeaf {
            size: Extent { width: left_width, height: root_height },
            first: PanelKind::Demo,
            second: Some(PanelKind::InfoHello),
        },
        right: DockLeaf {
            size: Extent { width: root_width - left_width, height: root_height },
            first: PanelKind::InfoFrametime,
            second: None,
        },
    }
}

/// The split always partitions the root region into exactly its two leaves:
/// their widths sum to the root width, both span the root's full height,
/// the left width is exactly the floor of seven tenths of the root width,
/// the root region is at least one pixel in each dimension however small
/// the window, and whenever the root is at least two pixels wide both
/// leaves are at least one pixel wide.
pub proof fn lemma_dock_split_partitions_root(window: Extent)
    ensures
        dock_layout_for(window).root == dock_root_extent(window),
        dock_layout_for(window).root.is_nonzero(),
        dock_layout_for(window).left.size.width + dock_layout_for(window).right.size.width
            == dock_layout_for(window).root.width,
        dock_layout_for(window).left.size.height == dock_layout_for(window).root.height,
        dock_layout_for(window).right.size.height == dock_layout_for(window).root.height,
        SPLIT_DENOM * dock_layout_for(window).left.size.width
            <= SPLIT_NUM * dock_layout_for(window).root.width
            < SPLIT_DENOM * (dock_layout_for(window).left.size.width + 1),
        dock_layout_for(window).root.width >= 2 ==> {
            &&& dock_layout_for(window).left.size.width >= 1
            &&& dock_layout_for(window).right.size.width >= 1
        },
{
    let root_w = dock_root_extent(window).width as int;
    let left_w = left_split_width(dock_root_extent(window).width) as int;
    assert(SPLIT_DENOM * left_w <= SPLIT_NUM * root_w < SPLIT_DENOM * (left_w + 1))
        by (nonlinear_arith)
        requires
            root_w >= 0,
            left_w == (root_w * SPLIT_NUM as int) / SPLIT_DENOM as int,
    ;
    if root_w >= 2 {
        assert(left_w >= 1 && root_w - left_w >= 1) by (nonlinear_arith)
            requires
                root_w >= 2,
                SPLIT_DENOM * left_w <= SPLIT_NUM * root_w < SPLIT_DENOM * (left_w + 1),
        ;
    }
}

} // verus!
