//! Acquiring the GPU: the backend instance, the adapter and the logical device.

use vstd::prelude::*;

verus! {

/// The graphics backends an instance may use.
#[derive(Clone, Copy, Debug, PartialEq, Eq, Structural)]
pub struct Backends {
    pub vulkan: bool,
    pub gl: bool,
    pub metal: bool,
    pub dx12: bool,
    pub dx11: bool,
    pub browser_webgpu: bool,
}

impl Backends {
    /// Holds when Metal is selected and no other backend is.
    pub open spec fn metal_only(self) -> bool {
        &&& self.metal
        &&& !self.vulkan
        &&& !self.gl
        &&& !self.dx12
        &&& !self.dx11
        &&& !self.browser_webgpu
    }
}

/// Which shader compiler a DirectX 12 backend would use.
#[derive(Clone, Copy, Debug, PartialEq, Eq, Structural)]
pub enum Dx12Compiler {
    Fxc,
    Dxc,
}

/// What a backend instance is opened with.
#[derive(Clone, Copy, Debug, PartialEq, Eq, Structural)]
pub struct InstanceOptions {
    pub backends: Backends,
    pub dx12_shader_compiler: Dx12Compiler,
}

impl InstanceOptions {
    /// Holds of the one instance this crate opens: Metal alone, and `Fxc`
    /// named as the compiler a DirectX 12 backend would have used.
    pub open spec fn is_metal_instance(self) -> bool {
        self.backends.metal_only() && self.dx12_shader_compiler == Dx12Compiler::Fxc
    }
}

/// Which kind of adapter is preferred when several are present.
#[derive(Clone, Copy, Debug, PartialEq, Eq, Structural)]
pub enum PowerPreference {
    LowPower,
    HighPerformance,
}

/// What an adapter is asked for.
#[derive(Clone, Copy, Debug, PartialEq, Eq, Structural)]
pub struct AdapterOptions {
    pub power_preference: PowerPreference,
    /// The adapter must be able to present to the window's surface.
    pub compatible_with_surface: bool,
    pub force_fallback_adapter: bool,
}

impl AdapterOptions {
    /// Holds of the one adapter request this crate makes: the low-power
    /// preference, an adapter that suits the surface, and no fallback adapter.
    pub open spec fn is_surface_adapter(self) -> bool {
        &&& self.power_preference == PowerPreference::LowPower
        &&& self.compatible_with_surface
        &&& !self.force_fallback_adapter
    }
}

/// The resource limits that a device is asked to support, one number for
/// each resource.
#[derive(Clone, Copy, Debug, PartialEq, Eq, Structural)]
pub struct Limits {
    pub max_texture_dimension_1d: u32,
    pub max_texture_dimension_2d: u32,
    pub max_texture_dimension_3d: u32,
    pub max_texture_array_layers: u32,
    pub max_bind_groups: u32,
    pub max_bindings_per_bind_group: u32,
    pub max_dynamic_uniform_buffers_per_pipeline_layout: u32,
    pub max_dynamic_storage_buffers_per_pipeline_layout: u32,
    pub max_sampled_textures_per_shader_stage: u32,
    pub max_samplers_per_shader_stage: u32,
    pub max_storage_buffers_per_shader_stage: u32,
    pub max_storage_textures_per_shader_stage: u32,
    pub max_uniform_buffers_per_shader_stage: u32,
    pub max_uniform_buffer_binding_size: u32,
    pub max_storage_buffer_binding_size: u32,
    pub max_vertex_buffers: u32,
    pub max_buffer_size: u64,
    pub max_vertex_attributes: u32,
    pub max_vertex_buffer_array_stride: u32,
    pub min_uniform_buffer_offset_alignment: u32,
    pub min_storage_buffer_offset_alignment: u32,
    pub max_inter_stage_shader_components: u32,
    pub max_compute_workgroup_storage_size: u32,
    pub max_compute_invocations_per_workgroup: u32,
    pub max_compute_workgroup_size_x: u32,
    pub max_compute_workgroup_size_y: u32,
    pub max_compute_workgroup_size_z: u32,
    pub max_compute_workgroups_per_dimension: u32,
    pub max_push_constant_size: u32,
}

impl Limits {
    /// The limits that are asked for when nothing more is needed: the
    /// graphics library's defaults.
    pub open spec fn defaults() -> Limits {
        Limits {
            max_texture_dimension_1d: 8192,
            max_texture_dimension_2d: 8192,
            max_texture_dimension_3d: 2048,
            max_texture_array_layers: 256,
            max_bind_groups: 4,
            max_bindings_per_bind_group: 640,
            max_dynamic_uniform_buffers_per_pipeline_layout: 8,
            max_dynamic_storage_buffers_per_pipeline_layout: 4,
            max_sampled_textures_per_shader_stage: 16,
            max_samplers_per_shader_stage: 16,
            max_storage_buffers_per_shader_stage: 8,
            max_storage_textures_per_shader_stage: 4,
            max_uniform_buffers_per_shader_stage: 12,
            max_uniform_buffer_binding_size: 65536,
            max_storage_buffer_binding_size: 134217728,
            max_vertex_buffers: 8,
            max_buffer_size: 268435456,
            max_vertex_attributes: 16,
            max_vertex_buffer_array_stride: 2048,
            min_uniform_buffer_offset_alignment: 256,
            min_storage_buffer_offset_alignment: 256,
            max_inter_stage_shader_components: 60,
            max_compute_workgroup_storage_size: 16384,
            max_compute_invocations_per_workgroup: 256,
            max_compute_workgroup_size_x: 256,
            max_compute_workgroup_size_y: 256,
            max_compute_workgroup_size_z: 64,
            max_compute_workgroups_per_dimension: 65535,
            max_push_constant_size: 0,
        }
    }
}

/// What a logical device is asked for.
#[derive(Clone, Copy, Debug, PartialEq, Eq, Structural)]
pub struct DeviceOptions {
    /// The optional features, as the bits of the feature set.
    pub features: u64,
    pub limits: Limits,
}

impl DeviceOptions {
    /// Holds when no optional feature is asked for.
    pub open spec fn is_featureless(self) -> bool {
        self.features == 0
    }

    /// Holds when the limits asked for are the default ones.
    pub open spec fn has_default_limits(self) -> bool {
        self.limits == Limits::defaults()
    }
}

/// Calls `wgpu::PowerPreference::default()`. That enum marks `LowPower` as
/// its default variant, and the contract says so.
#[verifier::external_body]
fn default_power_preference() -> (preference: PowerPreference)
    ensures
        preference == PowerPreference::LowPower,
{
    match wgpu::PowerPreference::default() {
        wgpu::PowerPreference::LowPower => PowerPreference::LowPower,
        wgpu::PowerPreference::HighPerformance => PowerPreference::HighPerformance,
    }
}

/// Calls `wgpu::Features::empty()` and reads its bits. The empty set of a
/// flags type has no bit set, and the contract says so.
#[verifier::external_body]
fn empty_features() -> (bits: u64)
    ensures
        bits == 0,
{
    wgpu::Features::empty().bits()
}

/// Calls `wgpu::Limits::default()` and copies its fields, each under its
/// own name. The contract gives every field the number that the `Default`
/// impl of `wgpu::Limits` writes for it.
#[verifier::external_body]
fn default_limits() -> (limits: Limits)
    ensures
        limits == Limits::defaults(),
{
    let wgpu::Limits { max_texture_dimension_1d, max_texture_dimension_2d, max_texture_dimension_3d, max_texture_array_layers, max_bind_groups,
        max_bindings_per_bind_group, max_dynamic_uniform_buffers_per_pipeline_layout, max_dynamic_storage_buffers_per_pipeline_layout,
        max_sampled_textures_per_shader_stage, max_samplers_per_shader_stage, max_storage_buffers_per_shader_stage, max_storage_textures_per_shader_stage,
        max_uniform_buffers_per_shader_stage, max_uniform_buffer_binding_size, max_storage_buffer_binding_size, max_vertex_buffers, max_buffer_size,
        max_vertex_attributes, max_vertex_buffer_array_stride, min_uniform_buffer_offset_alignment, min_storage_buffer_offset_alignment,
        max_inter_stage_shader_components, max_compute_workgroup_storage_size, max_compute_invocations_per_workgroup, max_compute_workgroup_size_x,
        max_compute_workgroup_size_y, max_compute_workgroup_size_z, max_compute_workgroups_per_dimension, max_push_constant_size } = wgpu::Limits::default();
    Limits { max_texture_dimension_1d, max_texture_dimension_2d, max_texture_dimension_3d, max_texture_array_layers, max_bind_groups,
        max_bindings_per_bind_group, max_dynamic_uniform_buffers_per_pipeline_layout, max_dynamic_storage_buffers_per_pipeline_layout,
        max_sampled_textures_per_shader_stage, max_samplers_per_shader_stage, max_storage_buffers_per_shader_stage, max_storage_textures_per_shader_stage,
        max_uniform_buffers_per_shader_stage, max_uniform_buffer_binding_size, max_storage_buffer_binding_size, max_vertex_buffers, max_buffer_size,
        max_vertex_attributes, max_vertex_buffer_array_stride, min_uniform_buffer_offset_alignment, min_storage_buffer_offset_alignment,
        max_inter_stage_shader_components, max_compute_workgroup_storage_size, max_compute_invocations_per_workgroup, max_compute_workgroup_size_x,
        max_compute_workgroup_size_y, max_compute_workgroup_size_z, max_compute_workgroups_per_dimension, max_push_constant_size }
}

/// The instance is opened on Metal and on nothing else.
pub fn instance_options() -> (options: InstanceOptions)
    ensures
        options.is_metal_instance(),
{
    InstanceOptions {
        backends: Backends {
            vulkan: false,
            gl: false,
            metal: true,
            dx12: false,
            dx11: false,
            browser_webgpu: false,
        },
        dx12_shader_compiler: Dx12Compiler::Fxc,
    }
}

/// The adapter is asked for with the default power preference, must suit the
/// window's surface, and may not be a fallback adapter.
pub fn adapter_options() -> (options: AdapterOptions)
    ensures
        options.is_surface_adapter(),
{
    AdapterOptions {
        power_preference: default_power_preference(),
        compatible_with_surface: true,
        force_fallback_adapter: false,
    }
}

/// The device is asked for without optional features and with the default limits.
pub fn device_options() -> (options: DeviceOptions)
    ensures
        options.is_featureless(),
        options.has_default_limits(),
{
    DeviceOptions { features: empty_features(), limits: default_limits() }
}

} // verus!
