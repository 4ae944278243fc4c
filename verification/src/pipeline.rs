//! The render pipeline: its layout, its vertex stage and its fixed state.

use vstd::prelude::*;

verus! {

/// What a pipeline layout is created with.
#[derive(Clone, Copy, Debug, PartialEq, Eq, Structural)]
pub struct PipelineLayoutOptions {
    pub bind_group_layout_count: u32,
    pub push_constant_range_count: u32,
}

impl PipelineLayoutOptions {
    /// Holds when the layout lets no data reach the shader.
    pub open spec fn is_empty(self) -> bool {
        self.bind_group_layout_count == 0 && self.push_constant_range_count == 0
    }
}

/// How a pixel's samples are taken and masked.
#[derive(Clone, Copy, Debug, PartialEq, Eq, Structural)]
pub struct MultisampleState {
    pub count: u32,
    pub mask: u64,
    pub alpha_to_coverage_enabled: bool,
}

impl MultisampleState {
    /// One sample per pixel, every sample enabled, no coverage from alpha.
    pub open spec fn single_sample() -> MultisampleState {
        MultisampleState { count: 1, mask: u64::MAX, alpha_to_coverage_enabled: false }
    }
}

/// Makes `wgpu::PrimitiveState` known as a type. Its fields stay hidden: a
/// value of it is carried from where it is made to where it is used, and
/// never read.
#[verifier::external_type_specification]
#[verifier::external_body]
pub struct ExPrimitiveState(wgpu::PrimitiveState);

/// What a render pipeline is created with.
#[derive(Clone, Copy, Debug, PartialEq)]
pub struct RenderPipelineOptions {
    /// The pipeline is created with the pipeline layout made just before it.
    pub uses_pipeline_layout: bool,
    /// Name of the shader function that the vertex stage starts in.
    pub vertex_entry_point: &'static str,
    pub vertex_buffer_count: u32,
    /// How vertices are assembled and rasterized, as the graphics library
    /// made it.
    pub primitive: wgpu::PrimitiveState,
    pub has_depth_stencil: bool,
    pub multisample: MultisampleState,
    pub has_fragment_stage: bool,
    pub multiview: Option<u32>,
}

impl RenderPipelineOptions {
    /// The pipeline declared here: a vertex stage that starts in `vs_main` and
    /// reads no vertex buffer, single sampling, no depth or stencil test, no
    /// multiview, and no fragment stage. The primitive state is not described.
    pub open spec fn is_vertex_only(self) -> bool {
        &&& self.uses_pipeline_layout
        &&& self.vertex_entry_point@ == VERTEX_ENTRY_POINT@
        &&& self.vertex_buffer_count == 0
        &&& !self.has_depth_stencil
        &&& self.multisample == MultisampleState::single_sample()
        &&& !self.has_fragment_stage
        &&& self.multiview is None
    }
}

/// Name of the vertex stage's entry point in the shader source.
pub const VERTEX_ENTRY_POINT: &'static str = "vs_main";

/// Calls `wgpu::PrimitiveState::default()`. The state is handed on as it
/// comes: nothing is claimed of it.
#[verifier::external_body]
fn default_primitive_state() -> wgpu::PrimitiveState {
    wgpu::PrimitiveState::default()
}

/// Calls `wgpu::MultisampleState::default()` and copies its three fields.
/// That default is one sample, a mask of all ones and no alpha to coverage,
/// and the contract says so.
#[verifier::external_body]
fn default_multisample_state() -> (state: MultisampleState)
    ensures
        state == MultisampleState::single_sample(),
{
    let state = wgpu::MultisampleState::default();
    MultisampleState {
        count: state.count,
        mask: state.mask,
        alpha_to_coverage_enabled: state.alpha_to_coverage_enabled,
    }
}

/// The pipeline layout has no bind group and no push constant range.
pub fn pipeline_layout_options() -> (options: PipelineLayoutOptions)
    ensures
        options.is_empty(),
{
    PipelineLayoutOptions { bind_group_layout_count: 0, push_constant_range_count: 0 }
}

/// The render pipeline has a vertex stage and default fixed state, and
/// nothing else. Its vertex entry point is always set.
pub fn render_pipeline_options() -> (options: RenderPipelineOptions)
    ensures
        options.is_vertex_only(),
        options.vertex_entry_point@.len() > 0,
{
    proof {
        reveal_strlit("vs_main");
    }
    RenderPipelineOptions {
        uses_pipeline_layout: true,
        vertex_entry_point: VERTEX_ENTRY_POINT,
        vertex_buffer_count: 0,
        primitive: default_primitive_state(),
        has_depth_stencil: false,
        multisample: default_multisample_state(),
        has_fragment_stage: false,
        multiview: None,
    }
}

} // verus!
