//! The GPU-side mesh model: per-primitive device buffers and the packed
//! per-instance mesh-data record.

use vstd::prelude::*;
use crate::bytes::{spec_u32_le, spec_u64_le, spec_zero_bytes, push_u32_le, push_u64_le,
    push_zero_bytes};
use crate::gfx::{HalaBuffer, HalaAccelerationStructure};
use crate::math::Mat4Bits;

verus! {

/// The byte size of one packed mesh-data record.
pub const MESH_DATA_BYTE_SIZE: usize = 88;

/// A primitive on the device: its vertex and index buffers and counts, its
/// material, and — when the respective features are enabled — its meshlet
/// buffers and its bottom-level acceleration structure.
pub struct HalaPrimitive {
    pub vertex_buffer: HalaBuffer,
    pub index_buffer: HalaBuffer,
    pub vertex_count: u32,
    pub index_count: u32,
    pub material_index: u32,
    pub meshlet_count: u32,
    pub meshlet_buffer: Option<HalaBuffer>,
    pub meshlet_vertex_buffer: Option<HalaBuffer>,
    pub meshlet_primitive_buffer: Option<HalaBuffer>,
    pub btlas: Option<HalaAccelerationStructure>,
}

/// A mesh on the device: its world transform and its primitives.
pub struct HalaMesh {
    pub transform: Mat4Bits,
    pub primitives: Vec<HalaPrimitive>,
}

/// The per-instance record shaders use to reach a primitive's data: the
/// instance's world transform, its material, and the device addresses of
/// its vertex and index buffers.
#[derive(Debug, Clone, Copy)]
pub struct HalaMeshData {
    pub transform: Mat4Bits,
    pub material_index: u32,
    pub vertices: u64,
    pub indices: u64,
}

/// The packed 88-byte layout of a mesh-data record: the sixteen transform
/// words, the material index, 4 bytes of alignment padding, then the two
/// 64-bit device addresses.
pub open spec fn spec_mesh_data_bytes(d: HalaMeshData) -> Seq<u8> {
    spec_u32_le(d.transform.e[0]) + spec_u32_le(d.transform.e[1]) + spec_u32_le(d.transform.e[2])
        + spec_u32_le(d.transform.e[3]) + spec_u32_le(d.transform.e[4]) + spec_u32_le(
        d.transform.e[5],
    ) + spec_u32_le(d.transform.e[6]) + spec_u32_le(d.transform.e[7]) + spec_u32_le(
        d.transform.e[8],
    ) + spec_u32_le(d.transform.e[9]) + spec_u32_le(d.transform.e[10]) + spec_u32_le(
        d.transform.e[11],
    ) + spec_u32_le(d.transform.e[12]) + spec_u32_le(d.transform.e[13]) + spec_u32_le(
        d.transform.e[14],
    ) + spec_u32_le(d.transform.e[15]) + spec_u32_le(d.material_index) + spec_zero_bytes(4)
        + spec_u64_le(d.vertices) + spec_u64_le(d.indices)
}

/// Append the packed 88-byte layout of `d`.
pub fn append_mesh_data_bytes(out: &mut Vec<u8>, d: &HalaMeshData)
    ensures
        final(out)@ == old(out)@ + spec_mesh_data_bytes(*d),
        final(out)@.len() == old(out)@.len() + MESH_DATA_BYTE_SIZE,
{
    push_u32_le(out, d.transform.e[0]);
    push_u32_le(out, d.transform.e[1]);
    push_u32_le(out, d.transform.e[2]);
    push_u32_le(out, d.transform.e[3]);
    push_u32_le(out, d.transform.e[4]);
    push_u32_le(out, d.transform.e[5]);
    push_u32_le(out, d.transform.e[6]);
    push_u32_le(out, d.transform.e[7]);
    push_u32_le(out, d.transform.e[8]);
    push_u32_le(out, d.transform.e[9]);
    push_u32_le(out, d.transform.e[10]);
    push_u32_le(out, d.transform.e[11]);
    push_u32_le(out, d.transform.e[12]);
    push_u32_le(out, d.transform.e[13]);
    push_u32_le(out, d.transform.e[14]);
    push_u32_le(out, d.transform.e[15]);
    push_u32_le(out, d.material_index);
    push_zero_bytes(out, 4);
    push_u64_le(out, d.vertices);
    push_u64_le(out, d.indices);
    proof {
        assert(out@ =~= old(out)@ + spec_mesh_data_bytes(*d));
    }
}

} // verus!
