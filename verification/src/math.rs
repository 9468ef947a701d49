//! Scalar and matrix arithmetic on IEEE-754 encodings.
//!
//! The operations that round (addition, subtraction, multiplication,
//! division, square root) and the 4x4 matrix routines are performed by
//! `glam` behind trusted wrappers; each rounding operation's result is given
//! a name, since it is a function of the operand encodings alone: IEEE-754
//! fixes every numeric result bit-exactly. One scope note: when such an
//! operation produces a NaN (say, adding opposite infinities), the payload
//! bits of that NaN are fixed by this build's instruction selection but not
//! specified across builds, so on NaN-producing operands the names speak of
//! one build at a time. Componentwise vector arithmetic is verified code
//! built on those scalars.

use vstd::prelude::*;
use crate::float_bits::{f32_neg, spec_f32_neg, spec_f32_is_nan, spec_f32_le};

verus! {

/// Encoding of `0.0f32`.
pub const F32_ZERO: u32 = 0x0000_0000;
/// Encoding of `0.5f32`.
pub const F32_HALF: u32 = 0x3F00_0000;
/// Encoding of `1.0f32`.
pub const F32_ONE: u32 = 0x3F80_0000;
/// Encoding of `2.0f32`.
pub const F32_TWO: u32 = 0x4000_0000;
/// Encoding of `-1.0f32`.
pub const F32_NEG_ONE: u32 = 0xBF80_0000;
/// Encoding of `90.0f32`.
pub const F32_NINETY: u32 = 0x42B4_0000;
/// Encoding of `0.33f32`.
pub const F32_0_33: u32 = 0x3EA8_F5C3;
/// Encoding of `0.45f32`.
pub const F32_0_45: u32 = 0x3EE6_6666;
/// Encoding of `0.09f32`.
pub const F32_0_09: u32 = 0x3DB8_51EC;
/// Encoding of `0.9f32`.
pub const F32_0_9: u32 = 0x3F66_6666;
/// Encoding of `0.001f32`.
pub const F32_0_001: u32 = 0x3A83_126F;
/// Encoding of `0.01f32`.
pub const F32_0_01: u32 = 0x3C23_D70A;
/// Encoding of `pi/2` as `f32`.
pub const F32_FRAC_PI_2: u32 = 0x3FC9_0FDB;
/// Encoding of `4.0f32 * pi`, as the product evaluates in `f32`.
pub const F32_FOUR_PI: u32 = 0x4149_0FDB;
/// Encoding of `pi/180` as `f32`, the degree-to-radian factor.
pub const F32_DEG_TO_RAD: u32 = 0x3C8E_FA35;
/// Encoding of `1.0f32 - f32::EPSILON`, the opacity threshold below which a
/// material counts as transparent.
pub const F32_ONE_MINUS_EPSILON: u32 = 0x3F7F_FFFE;

/// The encoding of the IEEE-754 single-precision sum of two encodings.
pub uninterp spec fn spec_f32_add(a: u32, b: u32) -> u32;

/// The encoding of the IEEE-754 single-precision difference of two encodings.
pub uninterp spec fn spec_f32_sub(a: u32, b: u32) -> u32;

/// The encoding of the IEEE-754 single-precision product of two encodings.
pub uninterp spec fn spec_f32_mul(a: u32, b: u32) -> u32;

/// The encoding of the IEEE-754 single-precision quotient of two encodings.
pub uninterp spec fn spec_f32_div(a: u32, b: u32) -> u32;

/// The encoding of the IEEE-754 single-precision square root of an encoding.
pub uninterp spec fn spec_f32_sqrt(a: u32) -> u32;

/// Relies on `glam::Vec2`'s componentwise `+`, which is the IEEE-754 `f32`
/// addition of the lanes; the sum is correctly rounded and thus a function of
/// the operand encodings alone.
#[verifier::external_body]
pub fn f32_add(a: u32, b: u32) -> (r: u32)
    ensures
        r == spec_f32_add(a, b),
{
    let va: glam::Vec2 = bytemuck::cast([a, 0u32]);
    let vb: glam::Vec2 = bytemuck::cast([b, 0u32]);
    (va + vb).x.to_bits()
}

/// Relies on `glam::Vec2`'s componentwise `-`, the IEEE-754 `f32`
/// subtraction, correctly rounded and deterministic in the operand encodings.
#[verifier::external_body]
pub fn f32_sub(a: u32, b: u32) -> (r: u32)
    ensures
        r == spec_f32_sub(a, b),
{
    let va: glam::Vec2 = bytemuck::cast([a, 0u32]);
    let vb: glam::Vec2 = bytemuck::cast([b, 0u32]);
    (va - vb).x.to_bits()
}

/// Relies on `glam::Vec2`'s componentwise `*`, the IEEE-754 `f32`
/// multiplication, correctly rounded and deterministic in the operand
/// encodings.
#[verifier::external_body]
pub fn f32_mul(a: u32, b: u32) -> (r: u32)
    ensures
        r == spec_f32_mul(a, b),
{
    let va: glam::Vec2 = bytemuck::cast([a, 0u32]);
    let vb: glam::Vec2 = bytemuck::cast([b, 0u32]);
    (va * vb).x.to_bits()
}

/// Relies on `glam::Vec2`'s componentwise `/`, the IEEE-754 `f32` division,
/// correctly rounded and deterministic in the operand encodings (division by
/// zero yields an infinity, never a panic).
#[verifier::external_body]
pub fn f32_div(a: u32, b: u32) -> (r: u32)
    ensures
        r == spec_f32_div(a, b),
{
    let va: glam::Vec2 = bytemuck::cast([a, 0u32]);
    let vb: glam::Vec2 = bytemuck::cast([b, 0u32]);
    (va / vb).x.to_bits()
}

/// Relies on `f32::sqrt`, which IEEE-754 requires to be correctly rounded,
/// so the result is a function of the operand encoding alone.
#[verifier::external_body]
pub fn f32_sqrt(a: u32) -> (r: u32)
    ensures
        r == spec_f32_sqrt(a),
{
    let va: glam::Vec2 = bytemuck::cast([a, 0u32]);
    va.x.sqrt().to_bits()
}

/// Whether an encoding is an acceptable cosine: NaN (a cosine of a NaN or
/// infinite angle) or a value in [-1, 1].
pub open spec fn spec_cosine_range(w: u32) -> bool {
    spec_f32_is_nan(w) || (spec_f32_le(F32_NEG_ONE, w) && spec_f32_le(w, F32_ONE))
}

/// Relies on `f32::cos`. Its precision is platform-specific, so the exact
/// value is not stated; what the C math library does specify is the range:
/// cosine results lie in [-1, +1], with NaN for a NaN or infinite operand.
#[verifier::external_body]
pub fn f32_cos(a: u32) -> (r: u32)
    ensures
        spec_cosine_range(r),
{
    let va: glam::Vec2 = bytemuck::cast([a, 0u32]);
    va.x.cos().to_bits()
}

/// A 4x4 matrix of IEEE-754 encodings, column-major as `glam::Mat4` is:
/// elements 0..4 are the x axis, 4..8 the y axis, 8..12 the z axis and
/// 12..16 the w axis (the translation).
#[derive(Debug, Clone, Copy)]
pub struct Mat4Bits {
    pub e: [u32; 16],
}

/// The encodings of the `glam::Mat4` product of two column-major matrices.
pub uninterp spec fn spec_mat4_mul(a: Seq<u32>, b: Seq<u32>) -> Seq<u32>;

/// The identity matrix.
pub open spec fn spec_mat4_identity() -> Seq<u32> {
    seq![
        F32_ONE, F32_ZERO, F32_ZERO, F32_ZERO,
        F32_ZERO, F32_ONE, F32_ZERO, F32_ZERO,
        F32_ZERO, F32_ZERO, F32_ONE, F32_ZERO,
        F32_ZERO, F32_ZERO, F32_ZERO, F32_ONE,
    ]
}

impl Mat4Bits {
    /// The identity matrix.
    pub fn identity() -> (r: Self)
        ensures
            r.e@ == spec_mat4_identity(),
    {
        let r = Mat4Bits {
            e: [
                F32_ONE, F32_ZERO, F32_ZERO, F32_ZERO,
                F32_ZERO, F32_ONE, F32_ZERO, F32_ZERO,
                F32_ZERO, F32_ZERO, F32_ONE, F32_ZERO,
                F32_ZERO, F32_ZERO, F32_ZERO, F32_ONE,
            ],
        };
        proof {
            assert(r.e@ =~= spec_mat4_identity());
        }
        r
    }
}

/// Relies on `glam::Mat4`'s `*`: each result column is
/// `a.x_axis*b_col.x + a.y_axis*b_col.y + a.z_axis*b_col.z + a.w_axis*b_col.w`
/// summed left to right in IEEE-754 `f32` (the scalar and SSE2 paths of glam
/// use the same operation order), so the product is a function of the
/// operand encodings alone.
#[verifier::external_body]
pub fn mat4_mul(a: &Mat4Bits, b: &Mat4Bits) -> (r: Mat4Bits)
    ensures
        r.e@ == spec_mat4_mul(a.e@, b.e@),
{
    let ma: glam::Mat4 = bytemuck::cast(a.e);
    let mb: glam::Mat4 = bytemuck::cast(b.e);
    Mat4Bits { e: bytemuck::cast(ma * mb) }
}

/// The encodings of `glam::Mat4::inverse` of a column-major matrix.
///
/// glam's scalar and SIMD code paths evaluate the cofactors in different
/// operation orders, so — as with NaN payloads (see the module note) — this
/// name speaks of one build at a time: a build compiles exactly one path,
/// and within it the result is a function of the operand encodings.
pub uninterp spec fn spec_mat4_inverse(a: Seq<u32>) -> Seq<u32>;

/// Relies on `glam::Mat4::inverse`, a fixed straight-line cofactor
/// computation of its one operand (per build; see `spec_mat4_inverse`).
#[verifier::external_body]
pub fn mat4_inverse(a: &Mat4Bits) -> (r: Mat4Bits)
    ensures
        r.e@ == spec_mat4_inverse(a.e@),
{
    let ma: glam::Mat4 = bytemuck::cast(a.e);
    Mat4Bits { e: bytemuck::cast(ma.inverse()) }
}

/// The shape glam's infinite-reverse perspective projection always has:
/// every entry is a constant written in its source except the two diagonal
/// scale factors (elements 0 and 5), and the near plane lands unchanged in
/// element 14.
pub open spec fn spec_infinite_reverse_projection_shape(m: Seq<u32>, z_near: u32) -> bool {
    &&& m.len() == 16
    &&& m[1] == F32_ZERO
    &&& m[2] == F32_ZERO
    &&& m[3] == F32_ZERO
    &&& m[4] == F32_ZERO
    &&& m[6] == F32_ZERO
    &&& m[7] == F32_ZERO
    &&& m[8] == F32_ZERO
    &&& m[9] == F32_ZERO
    &&& m[10] == F32_ZERO
    &&& m[11] == F32_NEG_ONE
    &&& m[12] == F32_ZERO
    &&& m[13] == F32_ZERO
    &&& m[14] == z_near
    &&& m[15] == F32_ZERO
}

/// The shape glam's orthographic projection always has: zeros off the
/// diagonal of the upper 3x3 block and a one in the last entry; the three
/// diagonal scales and the translation row depend on the bounds.
pub open spec fn spec_orthographic_projection_shape(m: Seq<u32>) -> bool {
    &&& m.len() == 16
    &&& m[1] == F32_ZERO
    &&& m[2] == F32_ZERO
    &&& m[3] == F32_ZERO
    &&& m[4] == F32_ZERO
    &&& m[6] == F32_ZERO
    &&& m[7] == F32_ZERO
    &&& m[8] == F32_ZERO
    &&& m[9] == F32_ZERO
    &&& m[11] == F32_ZERO
    &&& m[15] == F32_ONE
}

/// Relies on `glam::camera::rh::proj::directx::perspective_infinite_reverse`
/// (right-handed view space, depth 1 at the near plane falling to 0 at
/// infinity). Its source fixes every entry but the two diagonal scale
/// factors, which evaluate a tangent of platform-specific precision, so
/// only the fixed shape is stated; glam's input asserts are compiled out by
/// default, so the call is total.
#[verifier::external_body]
pub fn mat4_perspective_infinite_reverse_rh(fov_y: u32, aspect: u32, z_near: u32) -> (r: Mat4Bits)
    ensures
        spec_infinite_reverse_projection_shape(r.e@, z_near),
{
    let v: glam::Vec4 = bytemuck::cast([fov_y, aspect, z_near, 0u32]);
    Mat4Bits {
        e: bytemuck::cast(glam::camera::rh::proj::directx::perspective_infinite_reverse(
            v.x, v.y, v.z,
        )),
    }
}

/// Relies on `glam::camera::rh::proj::directx::orthographic` (right-handed
/// view space, depth range [0, 1]). Its source fixes the off-diagonal zeros
/// and the final one; the scales and translation are rational expressions
/// of the bounds, left unnamed since no contract reads them back.
#[verifier::external_body]
pub fn mat4_orthographic_rh(
    left: u32,
    right: u32,
    bottom: u32,
    top: u32,
    near: u32,
    far: u32,
) -> (r: Mat4Bits)
    ensures
        spec_orthographic_projection_shape(r.e@),
{
    let a: glam::Vec4 = bytemuck::cast([left, right, bottom, top]);
    let b: glam::Vec2 = bytemuck::cast([near, far]);
    Mat4Bits {
        e: bytemuck::cast(glam::camera::rh::proj::directx::orthographic(
            a.x, a.y, a.z, a.w, b.x, b.y,
        )),
    }
}

/// Zero is at most ninety: the clamp bounds used for light cone angles are
/// ordered.
pub proof fn lemma_zero_le_ninety()
    ensures
        crate::float_bits::spec_f32_le(F32_ZERO, F32_NINETY),
{
    assert(0x0u32 & 0x7F80_0000u32 == 0) by (bit_vector);
    assert(0x42B4_0000u32 & 0x7F80_0000u32 == 0x4280_0000u32) by (bit_vector);
    assert(0x0u32 & 0x8000_0000u32 == 0) by (bit_vector);
    assert(0x42B4_0000u32 & 0x8000_0000u32 == 0) by (bit_vector);
}

/// Zero is at most one: the clamp bounds used for the anisotropy parameter
/// are ordered.
pub proof fn lemma_zero_le_one()
    ensures
        crate::float_bits::spec_f32_le(F32_ZERO, F32_ONE),
{
    assert(0x0u32 & 0x7F80_0000u32 == 0) by (bit_vector);
    assert(0x3F80_0000u32 & 0x7F80_0000u32 == 0x3F80_0000u32) by (bit_vector);
    assert(0x0u32 & 0x8000_0000u32 == 0) by (bit_vector);
    assert(0x3F80_0000u32 & 0x8000_0000u32 == 0) by (bit_vector);
}

/// The x axis of a column-major world transform.
pub open spec fn spec_x_axis(w: Seq<u32>) -> Seq<u32> {
    seq![w[0], w[1], w[2]]
}

/// The y axis of a column-major world transform.
pub open spec fn spec_y_axis(w: Seq<u32>) -> Seq<u32> {
    seq![w[4], w[5], w[6]]
}

/// The z axis of a column-major world transform.
pub open spec fn spec_z_axis(w: Seq<u32>) -> Seq<u32> {
    seq![w[8], w[9], w[10]]
}

/// The translation of a column-major world transform.
pub open spec fn spec_w_axis(w: Seq<u32>) -> Seq<u32> {
    seq![w[12], w[13], w[14]]
}

/// The zero vector.
pub open spec fn spec_vec3_zero() -> Seq<u32> {
    seq![F32_ZERO, F32_ZERO, F32_ZERO]
}

/// The componentwise product of a vector of encodings with one scalar.
pub open spec fn spec_vec3_scale(v: Seq<u32>, s: u32) -> Seq<u32> {
    seq![spec_f32_mul(v[0], s), spec_f32_mul(v[1], s), spec_f32_mul(v[2], s)]
}

/// The componentwise sum of two vectors of encodings.
pub open spec fn spec_vec3_add(a: Seq<u32>, b: Seq<u32>) -> Seq<u32> {
    seq![spec_f32_add(a[0], b[0]), spec_f32_add(a[1], b[1]), spec_f32_add(a[2], b[2])]
}

/// The componentwise difference of two vectors of encodings.
pub open spec fn spec_vec3_sub(a: Seq<u32>, b: Seq<u32>) -> Seq<u32> {
    seq![spec_f32_sub(a[0], b[0]), spec_f32_sub(a[1], b[1]), spec_f32_sub(a[2], b[2])]
}

/// The componentwise negation of a vector of encodings.
pub open spec fn spec_vec3_neg(v: Seq<u32>) -> Seq<u32> {
    seq![spec_f32_neg(v[0]), spec_f32_neg(v[1]), spec_f32_neg(v[2])]
}

/// Scale a vector by a scalar, componentwise.
pub fn vec3_scale(v: &[u32; 3], s: u32) -> (r: [u32; 3])
    ensures
        r@ == spec_vec3_scale(v@, s),
{
    let r = [f32_mul(v[0], s), f32_mul(v[1], s), f32_mul(v[2], s)];
    proof {
        assert(r@ =~= spec_vec3_scale(v@, s));
    }
    r
}

/// Add two vectors, componentwise.
pub fn vec3_add(a: &[u32; 3], b: &[u32; 3]) -> (r: [u32; 3])
    ensures
        r@ == spec_vec3_add(a@, b@),
{
    let r = [f32_add(a[0], b[0]), f32_add(a[1], b[1]), f32_add(a[2], b[2])];
    proof {
        assert(r@ =~= spec_vec3_add(a@, b@));
    }
    r
}

/// Subtract two vectors, componentwise.
pub fn vec3_sub(a: &[u32; 3], b: &[u32; 3]) -> (r: [u32; 3])
    ensures
        r@ == spec_vec3_sub(a@, b@),
{
    let r = [f32_sub(a[0], b[0]), f32_sub(a[1], b[1]), f32_sub(a[2], b[2])];
    proof {
        assert(r@ =~= spec_vec3_sub(a@, b@));
    }
    r
}

/// Negate a vector, componentwise.
pub fn vec3_neg(v: &[u32; 3]) -> (r: [u32; 3])
    ensures
        r@ == spec_vec3_neg(v@),
{
    let r = [f32_neg(v[0]), f32_neg(v[1]), f32_neg(v[2])];
    proof {
        assert(r@ =~= spec_vec3_neg(v@));
    }
    r
}

} // verus!
