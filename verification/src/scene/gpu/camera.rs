//! The packed GPU camera record.

use vstd::prelude::*;
use crate::bytes::{spec_u32_le, spec_zero_bytes, push_u32_le, push_zero_bytes};
use crate::math::{
    F32_ZERO, spec_vec3_neg, vec3_neg, spec_x_axis, spec_y_axis, spec_z_axis, spec_w_axis,
};
use crate::scene::cpu::camera::HalaCamera as HalaCameraInCPU;
use crate::scene::cpu::node::HalaNode;

verus! {

/// The byte size of one packed GPU camera record.
pub const CAMERA_BYTE_SIZE: usize = 80;

/// The packed camera record: the world-space basis of the owning node and
/// the projection parameters. For a perspective camera `yfov`, the focal
/// distance and the aperture are set and the type tag is 0; for an
/// orthographic camera the two magnifications take the focal/aperture slots
/// and the tag is 1.
#[derive(Debug, Clone, Copy)]
pub struct HalaCamera {
    pub position: [u32; 3],
    pub right: [u32; 3],
    pub up: [u32; 3],
    pub forward: [u32; 3],
    pub yfov: u32,
    pub focal_distance_or_xmag: u32,
    pub aperture_or_ymag: u32,
    pub _type: u32,
}

/// The packed 80-byte layout of a camera record: three 16-byte-aligned
/// basis vectors, the forward vector, the three scalar parameters and the
/// type tag, then 4 bytes of tail padding.
pub open spec fn spec_camera_bytes(c: HalaCamera) -> Seq<u8> {
    spec_u32_le(c.position[0]) + spec_u32_le(c.position[1]) + spec_u32_le(c.position[2])
        + spec_zero_bytes(4) + spec_u32_le(c.right[0]) + spec_u32_le(c.right[1]) + spec_u32_le(
        c.right[2],
    ) + spec_zero_bytes(4) + spec_u32_le(c.up[0]) + spec_u32_le(c.up[1]) + spec_u32_le(c.up[2])
        + spec_zero_bytes(4) + spec_u32_le(c.forward[0]) + spec_u32_le(c.forward[1]) + spec_u32_le(
        c.forward[2],
    ) + spec_u32_le(c.yfov) + spec_u32_le(c.focal_distance_or_xmag) + spec_u32_le(
        c.aperture_or_ymag,
    ) + spec_u32_le(c._type) + spec_zero_bytes(4)
}

/// Append the packed 80-byte layout of `c`.
pub fn append_camera_bytes(out: &mut Vec<u8>, c: &HalaCamera)
    ensures
        final(out)@ == old(out)@ + spec_camera_bytes(*c),
        final(out)@.len() == old(out)@.len() + CAMERA_BYTE_SIZE,
{
    push_u32_le(out, c.position[0]);
    push_u32_le(out, c.position[1]);
    push_u32_le(out, c.position[2]);
    push_zero_bytes(out, 4);
    push_u32_le(out, c.right[0]);
    push_u32_le(out, c.right[1]);
    push_u32_le(out, c.right[2]);
    push_zero_bytes(out, 4);
    push_u32_le(out, c.up[0]);
    push_u32_le(out, c.up[1]);
    push_u32_le(out, c.up[2]);
    push_zero_bytes(out, 4);
    push_u32_le(out, c.forward[0]);
    push_u32_le(out, c.forward[1]);
    push_u32_le(out, c.forward[2]);
    push_u32_le(out, c.yfov);
    push_u32_le(out, c.focal_distance_or_xmag);
    push_u32_le(out, c.aperture_or_ymag);
    push_u32_le(out, c._type);
    push_zero_bytes(out, 4);
    proof {
        assert(out@ =~= old(out)@ + spec_camera_bytes(*c));
    }
}

/// The concatenated packed layouts of a camera array, in order.
pub open spec fn spec_camera_seq_bytes(s: Seq<HalaCamera>) -> Seq<u8>
    decreases s.len(),
{
    if s.len() == 0 {
        Seq::empty()
    } else {
        spec_camera_seq_bytes(s.drop_last()) + spec_camera_bytes(s.last())
    }
}

/// A camera array packs to 80 bytes per record.
pub proof fn lemma_camera_seq_bytes_len(s: Seq<HalaCamera>)
    ensures
        spec_camera_seq_bytes(s).len() == CAMERA_BYTE_SIZE * s.len(),
    decreases s.len(),
{
    if s.len() > 0 {
        lemma_camera_seq_bytes_len(s.drop_last());
    }
}

/// Pack a camera array into one contiguous payload.
pub fn camera_seq_bytes(v: &Vec<HalaCamera>) -> (r: Vec<u8>)
    ensures
        r@ == spec_camera_seq_bytes(v@),
        r@.len() == CAMERA_BYTE_SIZE * v@.len(),
{
    let n = v.len();
    let mut out: Vec<u8> = Vec::new();
    let mut i: usize = 0;
    proof {
        assert(v@.take(0int) =~= Seq::<HalaCamera>::empty());
    }
    while i < n
        invariant
            i <= n,
            n == v@.len(),
            out@ == spec_camera_seq_bytes(v@.take(i as int)),
        decreases n - i,
    {
        append_camera_bytes(&mut out, &v[i]);
        i = i + 1;
        proof {
            assert(v@.take(i as int).drop_last() =~= v@.take(i - 1));
            assert(v@.take(i as int).last() == v@[i - 1]);
        }
    }
    proof {
        assert(v@.take(n as int) =~= v@);
        lemma_camera_seq_bytes_len(v@);
    }
    out
}

/// The relation between a packed camera record, the owning node and the CPU
/// camera it was packed from: the node's world basis with the forward axis
/// negated, and the projection parameters of the camera's kind.
pub open spec fn spec_camera_record_matches(
    r: HalaCamera,
    node: HalaNode,
    camera: HalaCameraInCPU,
) -> bool {
    &&& r.position@ == spec_w_axis(node.world_transform.e@)
    &&& r.right@ == spec_x_axis(node.world_transform.e@)
    &&& r.up@ == spec_y_axis(node.world_transform.e@)
    &&& r.forward@ == spec_vec3_neg(spec_z_axis(node.world_transform.e@))
    &&& match camera {
        HalaCameraInCPU::Perspective(camera) => r.yfov == camera.yfov
            && r.focal_distance_or_xmag == camera.focal_distance && r.aperture_or_ymag
            == camera.aperture && r._type == 0,
        HalaCameraInCPU::Orthographic(camera) => r.yfov == F32_ZERO && r.focal_distance_or_xmag
            == camera.xmag && r.aperture_or_ymag == camera.ymag && r._type == 1,
    }
}

impl HalaCamera {
    /// Pack the GPU camera record for a camera and its owning node: the
    /// node's world basis (with the forward axis negated) and the camera's
    /// projection parameters.
    pub fn new(node_in_cpu: &HalaNode, camera_in_cpu: &HalaCameraInCPU) -> (r: Self)
        ensures
            spec_camera_record_matches(r, *node_in_cpu, *camera_in_cpu),
    {
        let w = &node_in_cpu.world_transform.e;
        let position: [u32; 3] = [w[12], w[13], w[14]];
        let right: [u32; 3] = [w[0], w[1], w[2]];
        let up: [u32; 3] = [w[4], w[5], w[6]];
        let z_axis: [u32; 3] = [w[8], w[9], w[10]];
        let forward = vec3_neg(&z_axis);
        proof {
            assert(position@ =~= spec_w_axis(w@));
            assert(right@ =~= spec_x_axis(w@));
            assert(up@ =~= spec_y_axis(w@));
            assert(z_axis@ =~= spec_z_axis(w@));
        }
        match camera_in_cpu {
            HalaCameraInCPU::Perspective(camera) => Self {
                position,
                right,
                up,
                forward,
                yfov: camera.yfov,
                focal_distance_or_xmag: camera.focal_distance,
                aperture_or_ymag: camera.aperture,
                _type: 0,
            },
            HalaCameraInCPU::Orthographic(camera) => Self {
                position,
                right,
                up,
                forward,
                yfov: F32_ZERO,
                focal_distance_or_xmag: camera.xmag,
                aperture_or_ymag: camera.ymag,
                _type: 1,
            },
        }
    }
}

} // verus!
