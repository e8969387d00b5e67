//! The values of the graphics backend that the library reads, and what it
//! takes for granted of the backend's functions on them.

use vstd::prelude::*;

verus! {

/// The backend's table of resource limits, `wgpu::Limits`: a plain record
/// of unsigned numbers, read field by field.
#[verifier::external_type_specification]
pub struct ExLimits(wgpu::Limits);

/// The limits that `wgpu::Limits::default()` returns.
pub open spec fn default_limits() -> wgpu::Limits {
    wgpu::Limits {
        max_texture_dimension_1d: 8192,
        max_texture_dimension_2d: 8192,
        max_texture_dimension_3d: 2048,
        max_texture_array_layers: 256,
        max_bind_groups: 4,
        max_bindings_per_bind_group: 1000,
        max_dynamic_uniform_buffers_per_pipeline_layout: 8,
        max_dynamic_storage_buffers_per_pipeline_layout: 4,
        max_sampled_textures_per_shader_stage: 16,
        max_samplers_per_shader_stage: 16,
        max_storage_buffers_per_shader_stage: 8,
        max_storage_textures_per_shader_stage: 4,
        max_uniform_buffers_per_shader_stage: 12,
        max_uniform_buffer_binding_size: 65536,
        max_storage_buffer_binding_size: 134217728,
        max_vertex_buffers: 8,
        max_buffer_size: 268435456,
        max_vertex_attributes: 16,
        max_vertex_buffer_array_stride: 2048,
        min_uniform_buffer_offset_alignment: 256,
        min_storage_buffer_offset_alignment: 256,
        max_inter_stage_shader_components: 60,
        max_color_attachments: 8,
        max_color_attachment_bytes_per_sample: 32,
        max_compute_workgroup_storage_size: 16384,
        max_compute_invocations_per_workgroup: 256,
        max_compute_workgroup_size_x: 256,
        max_compute_workgroup_size_y: 256,
        max_compute_workgroup_size_z: 64,
        max_compute_workgroups_per_dimension: 65535,
        min_subgroup_size: 0,
        max_subgroup_size: 0,
        max_push_constant_size: 0,
        max_non_sampler_bindings: 1000000,
    }
}

/// Limits with the three texture dimension limits of `other` and every
/// other limit of `base`.
pub open spec fn at_resolution(base: wgpu::Limits, other: wgpu::Limits) -> wgpu::Limits {
    wgpu::Limits {
        max_texture_dimension_1d: other.max_texture_dimension_1d,
        max_texture_dimension_2d: other.max_texture_dimension_2d,
        max_texture_dimension_3d: other.max_texture_dimension_3d,
        ..base
    }
}

/// `Default::default` of `wgpu::Limits` returns the backend's default
/// limits, the constants written out in `default_limits`.
pub assume_specification[ <wgpu::Limits as core::default::Default>::default ]() -> (limits:
    wgpu::Limits)
    ensures
        limits == default_limits(),
;

/// `wgpu::Limits::using_resolution` replaces the three texture dimension
/// limits by those of its argument and keeps every other limit.
pub assume_specification[ wgpu::Limits::using_resolution ](
    limits: wgpu::Limits,
    other: wgpu::Limits,
) -> (scaled: wgpu::Limits)
    ensures
        scaled == at_resolution(limits, other),
;

} // verus!
