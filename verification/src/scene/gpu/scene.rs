//! The GPU scene: the aggregate of device resources the uploader produces.

use vstd::prelude::*;
use crate::gfx::{HalaBuffer, HalaSampler, HalaImage, HalaAccelerationStructure};
use crate::math::Mat4Bits;
use crate::scene::gpu::mesh::HalaMesh;
use crate::scene::gpu::light::HalaLight;

verus! {

/// The device-resident mirror of a scene.
///
/// The camera matrices are CPU-resident copies kept for per-frame matrix
/// math; `light_data` keeps the packed light records readable on the CPU.
/// The acceleration-structure fields are populated only when the scene was
/// uploaded for ray tracing. `warnings` collects the non-fatal capacity
/// warnings the upload produced, for the caller to log.
pub struct HalaScene {
    pub camera_view_matrices: Vec<Mat4Bits>,
    pub camera_proj_matrices: Vec<Mat4Bits>,
    pub cameras: HalaBuffer,
    pub lights: HalaBuffer,
    pub light_aabbs: HalaBuffer,
    pub materials: Vec<HalaBuffer>,
    pub material_types: Vec<u32>,
    pub textures: Vec<u32>,
    pub samplers: Vec<HalaSampler>,
    pub images: Vec<HalaImage>,
    pub meshes: Vec<HalaMesh>,
    pub instances: Option<HalaBuffer>,
    pub tplas: Option<HalaAccelerationStructure>,
    pub primitives: Vec<HalaBuffer>,
    pub light_btlas: Option<HalaAccelerationStructure>,
    pub light_data: Vec<HalaLight>,
    pub warnings: Vec<String>,
}

} // verus!
