//! The draw pipeline: a fixed, immutable GPU draw configuration built once
//! at startup from precompiled shader stages, bound to one output format,
//! and only ever used — never mutated — afterwards.

use vstd::prelude::*;

use crate::present::TextureFormat;

verus! {

/// Winding order that counts as front-facing.
#[derive(Clone, Copy, Debug, PartialEq, Eq, Structural)]
pub enum FrontFace {
    CounterClockwise,
}

/// Which faces the rasteriser discards.
#[derive(Clone, Copy, Debug, PartialEq, Eq, Structural)]
pub enum CullMode {
    Back,
}

/// How fragment output combines with the existing color.
#[derive(Clone, Copy, Debug, PartialEq, Eq, Structural)]
pub enum BlendMode {
    Replace,
}

/// How vertices form primitives.
#[derive(Clone, Copy, Debug, PartialEq, Eq, Structural)]
pub enum Topology {
    TriangleList,
}

/// The immutable draw configuration: both shader stages bound, fixed
/// rasterisation and blend state, no depth/stencil, single-sampled, tied
/// to one output format.
#[derive(Clone, Copy, Debug, PartialEq, Eq, Structural)]
pub struct Pipeline {
    pub output_format: TextureFormat,
    pub front_face: FrontFace,
    pub cull_mode: CullMode,
    pub blend: BlendMode,
    pub topology: Topology,
    pub sample_count: u32,
    pub has_depth_stencil: bool,
}

/// The one configuration `build` produces for an output format.
pub open spec fn built_pipeline(output_format: TextureFormat) -> Pipeline {
    Pipeline {
        output_format,
        front_face: FrontFace::CounterClockwise,
        cull_mode: CullMode::Back,
        blend: BlendMode::Replace,
        topology: Topology::TriangleList,
        sample_count: 1u32,
        has_depth_stencil: false,
    }
}

impl Pipeline {
    /// Bind the precompiled shader stages and fixed-function state into one
    /// immutable configuration for the given output format. Built once at
    /// startup; it would need rebuilding only if the output format changed,
    /// which never happens in this design.
    pub fn build(output_format: TextureFormat) -> (p: Pipeline)
        ensures
            p == built_pipeline(output_format),
    {
        Pipeline {
            output_format,
            front_face: FrontFace::CounterClockwise,
            cull_mode: CullMode::Back,
            blend: BlendMode::Replace,
            topology: Topology::TriangleList,
            sample_count: 1,
            has_depth_stencil: false,
        }
    }
}

} // verus!
