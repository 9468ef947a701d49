//! Descriptions of ray-tracing shader programs.
//!
//! These are plain configuration records naming the shader files a
//! ray-tracing pipeline is assembled from; the pipeline construction itself
//! belongs to the GPU layer outside this crate.

use vstd::prelude::*;

verus! {

/// The shader files of one ray-tracing hit group: closest-hit, any-hit and
/// intersection stages, each optional.
pub struct HalaRayTracingHitShaderDesc {
    pub closest_hit_shader_file_path: Option<String>,
    pub any_hit_shader_file_path: Option<String>,
    pub intersection_shader_file_path: Option<String>,
}

/// The description of a whole ray-tracing program: ray-generation, miss,
/// hit-group and callable shader files, plus pipeline parameters.
pub struct HalaRayTracingProgramDesc {
    pub raygen_shader_file_paths: Vec<String>,
    pub miss_shader_file_paths: Vec<String>,
    pub hit_shader_file_paths: Vec<HalaRayTracingHitShaderDesc>,
    pub callable_shader_file_paths: Vec<String>,
    pub push_constant_size: u32,
    pub ray_recursion_depth: u32,
}

} // verus!
