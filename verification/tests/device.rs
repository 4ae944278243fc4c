use triangle_setup::device::{
    adapter_options, device_options, instance_options, Backends, Dx12Compiler, InstanceOptions,
    Limits, PowerPreference,
};

fn as_outside(limits: Limits) -> wgpu::Limits {
    wgpu::Limits {
        max_texture_dimension_1d: limits.max_texture_dimension_1d,
        max_texture_dimension_2d: limits.max_texture_dimension_2d,
        max_texture_dimension_3d: limits.max_texture_dimension_3d,
        max_texture_array_layers: limits.max_texture_array_layers,
        max_bind_groups: limits.max_bind_groups,
        max_bindings_per_bind_group: limits.max_bindings_per_bind_group,
        max_dynamic_uniform_buffers_per_pipeline_layout: limits.max_dynamic_uniform_buffers_per_pipeline_layout,
        max_dynamic_storage_buffers_per_pipeline_layout: limits.max_dynamic_storage_buffers_per_pipeline_layout,
        max_sampled_textures_per_shader_stage: limits.max_sampled_textures_per_shader_stage,
        max_samplers_per_shader_stage: limits.max_samplers_per_shader_stage,
        max_storage_buffers_per_shader_stage: limits.max_storage_buffers_per_shader_stage,
        max_storage_textures_per_shader_stage: limits.max_storage_textures_per_shader_stage,
        max_uniform_buffers_per_shader_stage: limits.max_uniform_buffers_per_shader_stage,
        max_uniform_buffer_binding_size: limits.max_uniform_buffer_binding_size,
        max_storage_buffer_binding_size: limits.max_storage_buffer_binding_size,
        max_vertex_buffers: limits.max_vertex_buffers,
        max_buffer_size: limits.max_buffer_size,
        max_vertex_attributes: limits.max_vertex_attributes,
        max_vertex_buffer_array_stride: limits.max_vertex_buffer_array_stride,
        min_uniform_buffer_offset_alignment: limits.min_uniform_buffer_offset_alignment,
        min_storage_buffer_offset_alignment: limits.min_storage_buffer_offset_alignment,
        max_inter_stage_shader_components: limits.max_inter_stage_shader_components,
        max_compute_workgroup_storage_size: limits.max_compute_workgroup_storage_size,
        max_compute_invocations_per_workgroup: limits.max_compute_invocations_per_workgroup,
        max_compute_workgroup_size_x: limits.max_compute_workgroup_size_x,
        max_compute_workgroup_size_y: limits.max_compute_workgroup_size_y,
        max_compute_workgroup_size_z: limits.max_compute_workgroup_size_z,
        max_compute_workgroups_per_dimension: limits.max_compute_workgroups_per_dimension,
        max_push_constant_size: limits.max_push_constant_size,
    }
}

#[test]
fn instance_is_opened_on_metal_alone() {
    assert_eq!(
        instance_options(),
        InstanceOptions {
            backends: Backends {
                vulkan: false,
                gl: false,
                metal: true,
                dx12: false,
                dx11: false,
                browser_webgpu: false,
            },
            dx12_shader_compiler: Dx12Compiler::Fxc,
        }
    );
}

#[test]
fn adapter_must_suit_the_surface_and_be_no_fallback() {
    let options = adapter_options();
    assert!(options.compatible_with_surface);
    assert!(!options.force_fallback_adapter);
}

#[test]
fn adapter_power_preference_is_the_default_one() {
    let options = adapter_options();
    assert_eq!(options.power_preference, PowerPreference::LowPower);
    assert_eq!(wgpu::PowerPreference::default(), wgpu::PowerPreference::LowPower);
}

#[test]
fn device_is_asked_for_without_features() {
    let options = device_options();
    assert_eq!(options.features, 0);
    assert_eq!(options.features, wgpu::Features::empty().bits());
    assert!(wgpu::Features::from_bits_truncate(options.features).is_empty());
}

#[test]
fn device_limits_are_the_default_limits() {
    let limits = device_options().limits;
    assert_eq!(as_outside(limits), wgpu::Limits::default());
    assert_ne!(as_outside(limits), wgpu::Limits::downlevel_defaults());
}

#[test]
fn default_limits_have_their_documented_values() {
    let limits = device_options().limits;
    assert_eq!(limits.max_texture_dimension_1d, 8192);
    assert_eq!(limits.max_texture_dimension_2d, 8192);
    assert_eq!(limits.max_texture_dimension_3d, 2048);
    assert_eq!(limits.max_texture_array_layers, 256);
    assert_eq!(limits.max_bind_groups, 4);
    assert_eq!(limits.max_bindings_per_bind_group, 640);
    assert_eq!(limits.max_dynamic_uniform_buffers_per_pipeline_layout, 8);
    assert_eq!(limits.max_dynamic_storage_buffers_per_pipeline_layout, 4);
    assert_eq!(limits.max_sampled_textures_per_shader_stage, 16);
    assert_eq!(limits.max_samplers_per_shader_stage, 16);
    assert_eq!(limits.max_storage_buffers_per_shader_stage, 8);
    assert_eq!(limits.max_storage_textures_per_shader_stage, 4);
    assert_eq!(limits.max_uniform_buffers_per_shader_stage, 12);
    assert_eq!(limits.max_uniform_buffer_binding_size, 64 * 1024);
    assert_eq!(limits.max_storage_buffer_binding_size, 128 * 1024 * 1024);
    assert_eq!(limits.max_vertex_buffers, 8);
    assert_eq!(limits.max_buffer_size, 256 * 1024 * 1024);
    assert_eq!(limits.max_vertex_attributes, 16);
    assert_eq!(limits.max_vertex_buffer_array_stride, 2048);
    assert_eq!(limits.min_uniform_buffer_offset_alignment, 256);
    assert_eq!(limits.min_storage_buffer_offset_alignment, 256);
    assert_eq!(limits.max_inter_stage_shader_components, 60);
    assert_eq!(limits.max_compute_workgroup_storage_size, 16384);
    assert_eq!(limits.max_compute_invocations_per_workgroup, 256);
    assert_eq!(limits.max_compute_workgroup_size_x, 256);
    assert_eq!(limits.max_compute_workgroup_size_y, 256);
    assert_eq!(limits.max_compute_workgroup_size_z, 64);
    assert_eq!(limits.max_compute_workgroups_per_dimension, 65535);
    assert_eq!(limits.max_push_constant_size, 0);
}
