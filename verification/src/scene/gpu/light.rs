//! The packed GPU light record, its conservative bounding box, and the
//! builder turning one CPU light plus its owning node into both.

use vstd::prelude::*;
use crate::bytes::{spec_u32_le, spec_zero_bytes, push_u32_le, push_zero_bytes};
use crate::float_bits::{
    spec_f32_min, spec_f32_max, spec_f32_is_nan, spec_f32_le, f32_min, f32_max,
    lemma_min_max_ordered,
};
use crate::math::{
    F32_ZERO, F32_HALF, F32_0_01, F32_FOUR_PI, spec_f32_mul, spec_vec3_scale, spec_vec3_add,
    spec_vec3_sub, spec_vec3_neg, f32_mul, f32_cos, vec3_scale, vec3_add, vec3_sub, vec3_neg,
    spec_x_axis, spec_y_axis, spec_z_axis, spec_w_axis, spec_vec3_zero, spec_cosine_range,
};
use crate::scene::cpu::light::{HalaLight as HalaLightInCPU, HalaLightType, spec_light_type_to_u8};
use crate::scene::cpu::node::HalaNode;

verus! {

/// The byte size of one packed GPU light record.
pub const LIGHT_BYTE_SIZE: usize = 80;

/// The byte size of one packed axis-aligned bounding box.
pub const AABB_BYTE_SIZE: usize = 24;

/// The packed light record the shaders read.
///
/// `u` and `v` depend on the light type: the (negated) direction and cone
/// cosines for directional and spot lights, the scaled edge vectors for a
/// quad light; `radius` and `area` are set for sphere and area lights.
#[derive(Debug, Clone, Copy)]
pub struct HalaLight {
    pub intensity: [u32; 3],
    pub position: [u32; 3],
    pub u: [u32; 3],
    pub v: [u32; 3],
    pub radius: u32,
    pub area: u32,
    pub _type: u32,
}

/// An axis-aligned bounding box, as the acceleration-structure builder
/// consumes it.
#[derive(Debug, Clone, Copy)]
pub struct HalaAABB {
    pub min: [u32; 3],
    pub max: [u32; 3],
}

/// The packed 80-byte layout of a light record: three 16-byte-aligned
/// vectors (12 bytes each plus 4 of padding), then `v`, `radius`, `area`
/// and the type tag, then 8 bytes of tail padding.
pub open spec fn spec_light_bytes(l: HalaLight) -> Seq<u8> {
    spec_u32_le(l.intensity[0]) + spec_u32_le(l.intensity[1]) + spec_u32_le(l.intensity[2])
        + spec_zero_bytes(4) + spec_u32_le(l.position[0]) + spec_u32_le(l.position[1])
        + spec_u32_le(l.position[2]) + spec_zero_bytes(4) + spec_u32_le(l.u[0]) + spec_u32_le(
        l.u[1],
    ) + spec_u32_le(l.u[2]) + spec_zero_bytes(4) + spec_u32_le(l.v[0]) + spec_u32_le(l.v[1])
        + spec_u32_le(l.v[2]) + spec_u32_le(l.radius) + spec_u32_le(l.area) + spec_u32_le(l._type)
        + spec_zero_bytes(8)
}

/// Append the packed 80-byte layout of `l`.
pub fn append_light_bytes(out: &mut Vec<u8>, l: &HalaLight)
    ensures
        final(out)@ == old(out)@ + spec_light_bytes(*l),
        final(out)@.len() == old(out)@.len() + LIGHT_BYTE_SIZE,
{
    push_u32_le(out, l.intensity[0]);
    push_u32_le(out, l.intensity[1]);
    push_u32_le(out, l.intensity[2]);
    push_zero_bytes(out, 4);
    push_u32_le(out, l.position[0]);
    push_u32_le(out, l.position[1]);
    push_u32_le(out, l.position[2]);
    push_zero_bytes(out, 4);
    push_u32_le(out, l.u[0]);
    push_u32_le(out, l.u[1]);
    push_u32_le(out, l.u[2]);
    push_zero_bytes(out, 4);
    push_u32_le(out, l.v[0]);
    push_u32_le(out, l.v[1]);
    push_u32_le(out, l.v[2]);
    push_u32_le(out, l.radius);
    push_u32_le(out, l.area);
    push_u32_le(out, l._type);
    push_zero_bytes(out, 8);
    proof {
        assert(out@ =~= old(out)@ + spec_light_bytes(*l));
    }
}

/// The packed 24-byte layout of a bounding box: minimum then maximum corner.
pub open spec fn spec_aabb_bytes(b: HalaAABB) -> Seq<u8> {
    spec_u32_le(b.min[0]) + spec_u32_le(b.min[1]) + spec_u32_le(b.min[2]) + spec_u32_le(b.max[0])
        + spec_u32_le(b.max[1]) + spec_u32_le(b.max[2])
}

/// Append the packed 24-byte layout of `b`.
pub fn append_aabb_bytes(out: &mut Vec<u8>, b: &HalaAABB)
    ensures
        final(out)@ == old(out)@ + spec_aabb_bytes(*b),
        final(out)@.len() == old(out)@.len() + AABB_BYTE_SIZE,
{
    push_u32_le(out, b.min[0]);
    push_u32_le(out, b.min[1]);
    push_u32_le(out, b.min[2]);
    push_u32_le(out, b.max[0]);
    push_u32_le(out, b.max[1]);
    push_u32_le(out, b.max[2]);
    proof {
        assert(out@ =~= old(out)@ + spec_aabb_bytes(*b));
    }
}

/// The concatenated packed layouts of a light array, in order.
pub open spec fn spec_light_seq_bytes(s: Seq<HalaLight>) -> Seq<u8>
    decreases s.len(),
{
    if s.len() == 0 {
        Seq::empty()
    } else {
        spec_light_seq_bytes(s.drop_last()) + spec_light_bytes(s.last())
    }
}

/// Each record packs to 80 bytes.
pub proof fn lemma_light_seq_bytes_len(s: Seq<HalaLight>)
    ensures
        spec_light_seq_bytes(s).len() == LIGHT_BYTE_SIZE * s.len(),
    decreases s.len(),
{
    if s.len() > 0 {
        lemma_light_seq_bytes_len(s.drop_last());
    }
}

/// Pack an array of records into one contiguous payload.
pub fn light_seq_bytes(v: &Vec<HalaLight>) -> (r: Vec<u8>)
    ensures
        r@ == spec_light_seq_bytes(v@),
        r@.len() == LIGHT_BYTE_SIZE * v@.len(),
{
    let n = v.len();
    let mut out: Vec<u8> = Vec::new();
    let mut i: usize = 0;
    proof {
        assert(v@.take(0int) =~= Seq::<HalaLight>::empty());
    }
    while i < n
        invariant
            i <= n,
            n == v@.len(),
            out@ == spec_light_seq_bytes(v@.take(i as int)),
        decreases n - i,
    {
        append_light_bytes(&mut out, &v[i]);
        i = i + 1;
        proof {
            assert(v@.take(i as int).drop_last() =~= v@.take(i - 1));
            assert(v@.take(i as int).last() == v@[i - 1]);
        }
    }
    proof {
        assert(v@.take(n as int) =~= v@);
        lemma_light_seq_bytes_len(v@);
    }
    out
}

/// The concatenated packed layouts of a bounding-box array, in order.
pub open spec fn spec_aabb_seq_bytes(s: Seq<HalaAABB>) -> Seq<u8>
    decreases s.len(),
{
    if s.len() == 0 {
        Seq::empty()
    } else {
        spec_aabb_seq_bytes(s.drop_last()) + spec_aabb_bytes(s.last())
    }
}

/// Each record packs to 24 bytes.
pub proof fn lemma_aabb_seq_bytes_len(s: Seq<HalaAABB>)
    ensures
        spec_aabb_seq_bytes(s).len() == AABB_BYTE_SIZE * s.len(),
    decreases s.len(),
{
    if s.len() > 0 {
        lemma_aabb_seq_bytes_len(s.drop_last());
    }
}

/// Pack an array of records into one contiguous payload.
pub fn aabb_seq_bytes(v: &Vec<HalaAABB>) -> (r: Vec<u8>)
    ensures
        r@ == spec_aabb_seq_bytes(v@),
        r@.len() == AABB_BYTE_SIZE * v@.len(),
{
    let n = v.len();
    let mut out: Vec<u8> = Vec::new();
    let mut i: usize = 0;
    proof {
        assert(v@.take(0int) =~= Seq::<HalaAABB>::empty());
    }
    while i < n
        invariant
            i <= n,
            n == v@.len(),
            out@ == spec_aabb_seq_bytes(v@.take(i as int)),
        decreases n - i,
    {
        append_aabb_bytes(&mut out, &v[i]);
        i = i + 1;
        proof {
            assert(v@.take(i as int).drop_last() =~= v@.take(i - 1));
            assert(v@.take(i as int).last() == v@[i - 1]);
        }
    }
    proof {
        assert(v@.take(n as int) =~= v@);
        lemma_aabb_seq_bytes_len(v@);
    }
    out
}

/// The corner of a quad light: its center moved back by half of each scaled
/// edge vector.
pub open spec fn spec_quad_corner(w: Seq<u32>, p0: u32, p1: u32) -> Seq<u32> {
    spec_vec3_sub(
        spec_vec3_sub(
            spec_w_axis(w),
            spec_vec3_scale(spec_vec3_scale(spec_x_axis(w), p0), F32_HALF),
        ),
        spec_vec3_scale(spec_vec3_scale(spec_y_axis(w), p1), F32_HALF),
    )
}

/// The opposite corner of a quad light: the corner plus both scaled edges
/// plus a small offset along the facing axis.
pub open spec fn spec_quad_far_corner(w: Seq<u32>, p0: u32, p1: u32) -> Seq<u32> {
    spec_vec3_add(
        spec_vec3_add(
            spec_vec3_add(spec_quad_corner(w, p0, p1), spec_vec3_scale(spec_x_axis(w), p0)),
            spec_vec3_scale(spec_y_axis(w), p1),
        ),
        spec_vec3_scale(spec_z_axis(w), F32_0_01),
    )
}

/// The packed intensity: the color scaled by the scalar intensity.
pub open spec fn spec_light_intensity(l: HalaLightInCPU) -> Seq<u32> {
    spec_vec3_scale(l.color@, l.intensity)
}

/// The packed position field per light type.
pub open spec fn spec_light_position(l: HalaLightInCPU, w: Seq<u32>) -> Seq<u32> {
    match l.light_type {
        HalaLightType::Directional => spec_vec3_zero(),
        HalaLightType::Quad => spec_quad_corner(w, l.params.0, l.params.1),
        _ => spec_w_axis(w),
    }
}

/// The packed `u` field per light type: the negated facing axis for
/// directional and spot lights, the scaled right edge for a quad light.
pub open spec fn spec_light_u(l: HalaLightInCPU, w: Seq<u32>) -> Seq<u32> {
    match l.light_type {
        HalaLightType::Directional => spec_vec3_neg(spec_z_axis(w)),
        HalaLightType::Spot => spec_vec3_neg(spec_z_axis(w)),
        HalaLightType::Quad => spec_vec3_scale(spec_x_axis(w), l.params.0),
        _ => spec_vec3_zero(),
    }
}

/// The packed `v` field per light type; `c0` and `c1` are the cosines of
/// the cone angles, computed by the caller, and enter only for directional
/// and spot lights.
pub open spec fn spec_light_v(l: HalaLightInCPU, w: Seq<u32>, c0: u32, c1: u32) -> Seq<u32> {
    match l.light_type {
        HalaLightType::Directional => seq![c0, F32_ZERO, F32_ZERO],
        HalaLightType::Spot => seq![c0, c1, F32_ZERO],
        HalaLightType::Quad => spec_vec3_scale(spec_y_axis(w), l.params.1),
        _ => spec_vec3_zero(),
    }
}

/// The packed radius: only a sphere light has one.
pub open spec fn spec_light_radius(l: HalaLightInCPU) -> u32 {
    match l.light_type {
        HalaLightType::Sphere => l.params.0,
        _ => F32_ZERO,
    }
}

/// The packed area: a quad light's width times height, a sphere light's
/// `4*pi*r*r`, zero otherwise.
pub open spec fn spec_light_area(l: HalaLightInCPU) -> u32 {
    match l.light_type {
        HalaLightType::Quad => spec_f32_mul(l.params.0, l.params.1),
        HalaLightType::Sphere => spec_f32_mul(spec_f32_mul(F32_FOUR_PI, l.params.0), l.params.0),
        _ => F32_ZERO,
    }
}

/// The raw (not yet normalized) bounding-box minimum corner per light type.
pub open spec fn spec_light_raw_min(l: HalaLightInCPU, w: Seq<u32>) -> Seq<u32> {
    match l.light_type {
        HalaLightType::Directional => spec_vec3_zero(),
        HalaLightType::Quad => spec_quad_corner(w, l.params.0, l.params.1),
        HalaLightType::Sphere => spec_vec3_sub(
            spec_w_axis(w),
            seq![l.params.0, l.params.0, l.params.0],
        ),
        _ => spec_w_axis(w),
    }
}

/// The raw (not yet normalized) bounding-box maximum corner per light type.
pub open spec fn spec_light_raw_max(l: HalaLightInCPU, w: Seq<u32>) -> Seq<u32> {
    match l.light_type {
        HalaLightType::Directional => spec_vec3_zero(),
        HalaLightType::Quad => spec_quad_far_corner(w, l.params.0, l.params.1),
        HalaLightType::Sphere => spec_vec3_add(
            spec_w_axis(w),
            seq![l.params.0, l.params.0, l.params.0],
        ),
        _ => spec_w_axis(w),
    }
}

/// The componentwise minimum of two vectors of encodings.
pub open spec fn spec_vec3_fmin(a: Seq<u32>, b: Seq<u32>) -> Seq<u32> {
    seq![spec_f32_min(a[0], b[0]), spec_f32_min(a[1], b[1]), spec_f32_min(a[2], b[2])]
}

/// The componentwise maximum of two vectors of encodings.
pub open spec fn spec_vec3_fmax(a: Seq<u32>, b: Seq<u32>) -> Seq<u32> {
    seq![spec_f32_max(a[0], b[0]), spec_f32_max(a[1], b[1]), spec_f32_max(a[2], b[2])]
}

/// The type tag of the packed record.
pub open spec fn spec_light_tag(l: HalaLightInCPU) -> u32 {
    spec_light_type_to_u8(l.light_type) as u32
}

/// The relation between a packed light record and the CPU light and world
/// transform it was packed from. The cone cosines of directional and spot
/// lights are computed by `f32::cos`, whose platform precision keeps them
/// from being pinned, so they appear as existential witnesses in the
/// documented cosine range; every other field is pinned exactly.
pub open spec fn spec_light_record_matches(rec: HalaLight, l: HalaLightInCPU, w: Seq<u32>) -> bool {
    &&& rec.intensity@ == spec_light_intensity(l)
    &&& rec.position@ == spec_light_position(l, w)
    &&& rec.u@ == spec_light_u(l, w)
    &&& (exists|c0: u32, c1: u32| rec.v@ == #[trigger] spec_light_v(l, w, c0, c1))
    &&& match l.light_type {
        HalaLightType::Directional => spec_cosine_range(rec.v[0]),
        HalaLightType::Spot => spec_cosine_range(rec.v[0]) && spec_cosine_range(rec.v[1]),
        _ => true,
    }
    &&& rec.radius == spec_light_radius(l)
    &&& rec.area == spec_light_area(l)
    &&& rec._type == spec_light_tag(l)
}

/// The relation between a light's bounding box and the CPU light and world
/// transform it was derived from: the normalized form of the raw corners.
pub open spec fn spec_light_aabb_matches(b: HalaAABB, l: HalaLightInCPU, w: Seq<u32>) -> bool {
    &&& b.min@ == spec_vec3_fmin(spec_light_raw_min(l, w), spec_light_raw_max(l, w))
    &&& b.max@ == spec_vec3_fmax(spec_light_raw_min(l, w), spec_light_raw_max(l, w))
}

/// Every produced bounding box is normalized: on each axis where at least
/// one raw corner is not NaN, minimum is at most maximum.
pub proof fn lemma_light_aabb_normalized(b: HalaAABB, l: HalaLightInCPU, w: Seq<u32>)
    requires
        spec_light_aabb_matches(b, l, w),
    ensures
        forall|k: int|
            0 <= k < 3 ==> ((!spec_f32_is_nan(spec_light_raw_min(l, w)[k]) || !spec_f32_is_nan(
                spec_light_raw_max(l, w)[k],
            )) ==> spec_f32_le(#[trigger] b.min@[k], b.max@[k])),
{
    assert forall|k: int|
        0 <= k < 3 && (!spec_f32_is_nan(spec_light_raw_min(l, w)[k]) || !spec_f32_is_nan(
            spec_light_raw_max(l, w)[k],
        )) implies spec_f32_le(#[trigger] b.min@[k], b.max@[k]) by {
        lemma_min_max_ordered(spec_light_raw_min(l, w)[k], spec_light_raw_max(l, w)[k]);
    }
}

/// Build the packed light record and its normalized bounding box from a CPU
/// light and its owning node's world transform.
pub fn build_light_record(light: &HalaLightInCPU, node: &HalaNode) -> (r: (HalaLight, HalaAABB))
    ensures
        spec_light_record_matches(r.0, *light, node.world_transform.e@),
        spec_light_aabb_matches(r.1, *light, node.world_transform.e@),
        forall|k: int|
            0 <= k < 3 ==> ((!spec_f32_is_nan(
                spec_light_raw_min(*light, node.world_transform.e@)[k],
            ) || !spec_f32_is_nan(spec_light_raw_max(*light, node.world_transform.e@)[k]))
                ==> spec_f32_le(#[trigger] r.1.min@[k], r.1.max@[k])),
{
    let w = &node.world_transform.e;
    let x_axis: [u32; 3] = [w[0], w[1], w[2]];
    let y_axis: [u32; 3] = [w[4], w[5], w[6]];
    let z_axis: [u32; 3] = [w[8], w[9], w[10]];
    let w_axis: [u32; 3] = [w[12], w[13], w[14]];
    let zero: [u32; 3] = [F32_ZERO, F32_ZERO, F32_ZERO];
    proof {
        assert(x_axis@ =~= spec_x_axis(w@));
        assert(y_axis@ =~= spec_y_axis(w@));
        assert(z_axis@ =~= spec_z_axis(w@));
        assert(w_axis@ =~= spec_w_axis(w@));
        assert(zero@ =~= spec_vec3_zero());
    }
    let intensity = vec3_scale(&light.color, light.intensity);
    let (record, raw_min, raw_max): (HalaLight, [u32; 3], [u32; 3]) = match light.light_type {
        HalaLightType::Point => {
            let record = HalaLight {
                intensity,
                position: w_axis,
                u: zero,
                v: zero,
                radius: F32_ZERO,
                area: F32_ZERO,
                _type: 0,
            };
            (record, w_axis, w_axis)
        },
        HalaLightType::Directional => {
            let c0 = f32_cos(f32_mul(F32_HALF, light.params.0));
            let record = HalaLight {
                intensity,
                position: zero,
                u: vec3_neg(&z_axis),
                v: [c0, F32_ZERO, F32_ZERO],
                radius: F32_ZERO,
                area: F32_ZERO,
                _type: 1,
            };
            (record, zero, zero)
        },
        HalaLightType::Spot => {
            let c0 = f32_cos(light.params.0);
            let c1 = f32_cos(light.params.1);
            let record = HalaLight {
                intensity,
                position: w_axis,
                u: vec3_neg(&z_axis),
                v: [c0, c1, F32_ZERO],
                radius: F32_ZERO,
                area: F32_ZERO,
                _type: 2,
            };
            (record, w_axis, w_axis)
        },
        HalaLightType::Quad => {
            let corner = vec3_sub(
                &vec3_sub(&w_axis, &vec3_scale(&vec3_scale(&x_axis, light.params.0), F32_HALF)),
                &vec3_scale(&vec3_scale(&y_axis, light.params.1), F32_HALF),
            );
            let far_corner = vec3_add(
                &vec3_add(
                    &vec3_add(&corner, &vec3_scale(&x_axis, light.params.0)),
                    &vec3_scale(&y_axis, light.params.1),
                ),
                &vec3_scale(&z_axis, F32_0_01),
            );
            let record = HalaLight {
                intensity,
                position: corner,
                u: vec3_scale(&x_axis, light.params.0),
                v: vec3_scale(&y_axis, light.params.1),
                radius: F32_ZERO,
                area: f32_mul(light.params.0, light.params.1),
                _type: 3,
            };
            (record, corner, far_corner)
        },
        HalaLightType::Sphere => {
            let radius_vec: [u32; 3] = [light.params.0, light.params.0, light.params.0];
            let bb_min = vec3_sub(&w_axis, &radius_vec);
            let bb_max = vec3_add(&w_axis, &radius_vec);
            let record = HalaLight {
                intensity,
                position: w_axis,
                u: zero,
                v: zero,
                radius: light.params.0,
                area: f32_mul(f32_mul(F32_FOUR_PI, light.params.0), light.params.0),
                _type: 4,
            };
            (record, bb_min, bb_max)
        },
    };
    let aabb = HalaAABB {
        min: [
            f32_min(raw_min[0], raw_max[0]),
            f32_min(raw_min[1], raw_max[1]),
            f32_min(raw_min[2], raw_max[2]),
        ],
        max: [
            f32_max(raw_min[0], raw_max[0]),
            f32_max(raw_min[1], raw_max[1]),
            f32_max(raw_min[2], raw_max[2]),
        ],
    };
    proof {
        let w = node.world_transform.e@;
        assert(record.intensity@ == spec_light_intensity(*light));
        assert(record.position@ =~= spec_light_position(*light, w));
        assert(record.u@ =~= spec_light_u(*light, w));
        assert(record.v@ =~= spec_light_v(*light, w, record.v@[0], record.v@[1]));
        assert(record.radius == spec_light_radius(*light));
        assert(record.area == spec_light_area(*light));
        assert(record._type == spec_light_tag(*light));
        assert(raw_min@ =~= spec_light_raw_min(*light, w));
        assert(raw_max@ =~= spec_light_raw_max(*light, w));
        assert(aabb.min@ =~= spec_vec3_fmin(raw_min@, raw_max@));
        assert(aabb.max@ =~= spec_vec3_fmax(raw_min@, raw_max@));
        assert forall|k: int|
            0 <= k < 3 && (!spec_f32_is_nan(spec_light_raw_min(*light, w)[k]) || !spec_f32_is_nan(
                spec_light_raw_max(*light, w)[k],
            )) implies spec_f32_le(#[trigger] aabb.min@[k], aabb.max@[k]) by {
            lemma_min_max_ordered(raw_min@[k], raw_max@[k]);
        }
    }
    (record, aabb)
}

} // verus!
