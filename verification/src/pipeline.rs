//! The fixed-function state that pipelines are created with.
use vstd::prelude::*;
use crate::rhi::{BlendState, CompareOp, Cull, Format, Topology};
use crate::vk_map::{compare_op, cull, spec_compare_op, spec_cull};

verus! {

/// How primitives of a graphics pipeline are rasterized.
#[derive(Clone, Copy, Debug)]
pub struct RasterDescription<'a> {
    pub topology: Topology,
    pub cull: Cull,
    pub alpha_to_coverage: bool,
    pub depth_format: Format,
    pub stencil_format: Format,
    pub color_formats: &'a [Format],
    pub blend_state: Option<BlendState>,
}

impl<'a> RasterDescription<'a> {
    /// Triangle lists culled counter-clockwise, with no attachments and no blending.
    pub fn new_default() -> (r: RasterDescription<'static>)
        ensures
            r.topology == Topology::TriangleList,
            r.cull == Cull::CCW,
            !r.alpha_to_coverage,
            r.depth_format.raw == 0,
            r.stencil_format.raw == 0,
            r.color_formats@.len() == 0,
            r.blend_state is None,
    {
        RasterDescription {
            topology: Topology::TriangleList,
            cull: Cull::CCW,
            alpha_to_coverage: false,
            depth_format: Format::undefined(),
            stencil_format: Format::undefined(),
            color_formats: &[],
            blend_state: None,
        }
    }
}

/// `VK_PRIMITIVE_TOPOLOGY_TRIANGLE_LIST`.
pub const TOPOLOGY_TRIANGLE_LIST: i32 = 3i32;

/// `VK_COMPARE_OP_GREATER_OR_EQUAL`.
pub const COMPARE_GREATER_OR_EQUAL: i32 = 6i32;

/// `VK_SAMPLE_COUNT_1_BIT`.
pub const SAMPLE_COUNT_1: u32 = 1u32;

/// The state that a graphics pipeline is created with, by raw Vulkan values.
pub struct GraphicsPipelinePlan {
    /// The primitive topology: triangle lists, whatever the description asks.
    pub topology: i32,
    pub cull_mode: u32,
    pub front_face: i32,
    pub alpha_to_coverage: bool,
    pub rasterization_samples: u32,
    /// Depth testing and writing are on, with greater-or-equal (reversed) depth.
    pub depth_test: bool,
    pub depth_write: bool,
    pub depth_compare_op: i32,
    pub stencil_test: bool,
    /// Blending is off in the pipeline; it is set as dynamic state.
    pub blend_enable: bool,
    pub color_formats: Vec<i32>,
    pub depth_format: i32,
    pub stencil_format: i32,
}

/// The fixed-function state of a graphics pipeline for `desc`.
pub fn plan_graphics_pipeline(desc: &RasterDescription) -> (r: GraphicsPipelinePlan)
    ensures
        r.topology == TOPOLOGY_TRIANGLE_LIST,
        (r.cull_mode, r.front_face) == spec_cull(desc.cull),
        r.alpha_to_coverage == desc.alpha_to_coverage,
        r.rasterization_samples == SAMPLE_COUNT_1,
        r.depth_test,
        r.depth_write,
        r.depth_compare_op == COMPARE_GREATER_OR_EQUAL,
        !r.stencil_test,
        !r.blend_enable,
        r.color_formats@.len() == desc.color_formats@.len(),
        forall|i: int| 0 <= i < r.color_formats@.len() ==> #[trigger] r.color_formats@[i] == desc.color_formats@[i].raw,
        r.depth_format == desc.depth_format.raw,
        r.stencil_format == desc.stencil_format.raw,
{
    let (cull_mode, front_face) = cull(desc.cull);
    let mut color_formats: Vec<i32> = Vec::new();
    let mut i: usize = 0;
    while i < desc.color_formats.len()
        invariant
            0 <= i <= desc.color_formats@.len(),
            color_formats@.len() == i,
            forall|k: int| 0 <= k < i ==> #[trigger] color_formats@[k] == desc.color_formats@[k].raw,
        decreases desc.color_formats@.len() - i,
    {
        color_formats.push(desc.color_formats[i].raw);
        i = i + 1;
    }
    GraphicsPipelinePlan {
        topology: TOPOLOGY_TRIANGLE_LIST,
        cull_mode,
        front_face,
        alpha_to_coverage: desc.alpha_to_coverage,
        rasterization_samples: SAMPLE_COUNT_1,
        depth_test: true,
        depth_write: true,
        depth_compare_op: COMPARE_GREATER_OR_EQUAL,
        stencil_test: false,
        blend_enable: false,
        color_formats,
        depth_format: desc.depth_format.raw,
        stencil_format: desc.stencil_format.raw,
    }
}

/// Whether a sampler compares, and the raw `VkCompareOp` it is given: the
/// requested operation, or `NEVER` (unused) when it does not compare.
pub fn sampler_compare(op: Option<CompareOp>) -> (r: (bool, i32))
    ensures
        r.0 == op is Some,
        r.1 == match op {
            Some(o) => spec_compare_op(o),
            None => spec_compare_op(CompareOp::Never),
        },
{
    match op {
        Some(o) => (true, compare_op(o)),
        None => (false, compare_op(CompareOp::Never)),
    }
}

} // verus!
