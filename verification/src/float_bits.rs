//! Bit-level operations on IEEE-754 single-precision values.
//!
//! Scalars are carried through this crate as their 32-bit IEEE-754 encodings.
//! Ordering, minimum, maximum, clamping and negation are pure functions of
//! those encodings, so they are implemented and verified here directly; only
//! the arithmetic that genuinely rounds (see `math`) is delegated to an
//! outside library.

use vstd::prelude::*;

verus! {

/// Sign bit of a single-precision encoding.
pub const F32_SIGN_MASK: u32 = 0x8000_0000;
/// Magnitude (exponent and mantissa) bits of a single-precision encoding.
pub const F32_MAGNITUDE_MASK: u32 = 0x7FFF_FFFF;
/// Exponent bits of a single-precision encoding.
pub const F32_EXPONENT_MASK: u32 = 0x7F80_0000;
/// Mantissa bits of a single-precision encoding.
pub const F32_MANTISSA_MASK: u32 = 0x007F_FFFF;

/// Whether the encoding denotes a NaN: exponent all ones, mantissa non-zero.
pub open spec fn spec_f32_is_nan(b: u32) -> bool {
    b & F32_EXPONENT_MASK == F32_EXPONENT_MASK && b & F32_MANTISSA_MASK != 0
}

/// A strictly monotone key for the numeric order of non-NaN encodings.
///
/// Negative values map below positive ones, both zeros map to the same key,
/// and within one sign the magnitude bits order the values; this is the
/// standard sign-magnitude ordering of IEEE-754.
pub open spec fn spec_f32_key(b: u32) -> int {
    if b & F32_SIGN_MASK != 0 {
        0x8000_0000 - (b & F32_MAGNITUDE_MASK) as int
    } else {
        0x8000_0000 + b as int
    }
}

/// The `<=` relation of IEEE-754 comparison: false whenever either side is NaN.
pub open spec fn spec_f32_le(a: u32, b: u32) -> bool {
    !spec_f32_is_nan(a) && !spec_f32_is_nan(b) && spec_f32_key(a) <= spec_f32_key(b)
}

/// The `<` relation of IEEE-754 comparison: false whenever either side is NaN.
pub open spec fn spec_f32_lt(a: u32, b: u32) -> bool {
    !spec_f32_is_nan(a) && !spec_f32_is_nan(b) && spec_f32_key(a) < spec_f32_key(b)
}

/// The minimum in the sense of `f32::min`: a NaN operand yields the other one.
pub open spec fn spec_f32_min(a: u32, b: u32) -> u32 {
    if spec_f32_is_nan(a) {
        b
    } else if spec_f32_is_nan(b) {
        a
    } else if spec_f32_key(a) <= spec_f32_key(b) {
        a
    } else {
        b
    }
}

/// The maximum in the sense of `f32::max`: a NaN operand yields the other one.
pub open spec fn spec_f32_max(a: u32, b: u32) -> u32 {
    if spec_f32_is_nan(a) {
        b
    } else if spec_f32_is_nan(b) {
        a
    } else if spec_f32_key(a) <= spec_f32_key(b) {
        b
    } else {
        a
    }
}

/// Clamping in the sense of `f32::clamp` with non-NaN, ordered bounds:
/// NaN stays NaN, otherwise the value is forced into `[lo, hi]`.
pub open spec fn spec_f32_clamp(x: u32, lo: u32, hi: u32) -> u32 {
    if spec_f32_is_nan(x) {
        x
    } else if spec_f32_lt(x, lo) {
        lo
    } else if spec_f32_lt(hi, x) {
        hi
    } else {
        x
    }
}

/// Negation: IEEE-754 negation flips exactly the sign bit.
pub open spec fn spec_f32_neg(b: u32) -> u32 {
    b ^ F32_SIGN_MASK
}

/// Whether the encoding denotes a NaN.
pub fn f32_is_nan(b: u32) -> (r: bool)
    ensures
        r == spec_f32_is_nan(b),
{
    b & F32_EXPONENT_MASK == F32_EXPONENT_MASK && b & F32_MANTISSA_MASK != 0
}

/// The order key of an encoding, as a machine integer.
fn f32_key(b: u32) -> (k: u64)
    ensures
        k as int == spec_f32_key(b),
{
    proof {
        assert(b & F32_MAGNITUDE_MASK <= F32_MAGNITUDE_MASK) by (bit_vector);
    }
    if b & F32_SIGN_MASK != 0 {
        0x8000_0000u64 - ((b & F32_MAGNITUDE_MASK) as u64)
    } else {
        0x8000_0000u64 + (b as u64)
    }
}

/// IEEE-754 `<=` on encodings.
pub fn f32_le(a: u32, b: u32) -> (r: bool)
    ensures
        r == spec_f32_le(a, b),
{
    if f32_is_nan(a) || f32_is_nan(b) {
        false
    } else {
        f32_key(a) <= f32_key(b)
    }
}

/// IEEE-754 `<` on encodings.
pub fn f32_lt(a: u32, b: u32) -> (r: bool)
    ensures
        r == spec_f32_lt(a, b),
{
    if f32_is_nan(a) || f32_is_nan(b) {
        false
    } else {
        f32_key(a) < f32_key(b)
    }
}

/// The minimum of two encodings, NaN-ignoring as `f32::min` is.
pub fn f32_min(a: u32, b: u32) -> (r: u32)
    ensures
        r == spec_f32_min(a, b),
{
    if f32_is_nan(a) {
        b
    } else if f32_is_nan(b) {
        a
    } else if f32_key(a) <= f32_key(b) {
        a
    } else {
        b
    }
}

/// The maximum of two encodings, NaN-ignoring as `f32::max` is.
pub fn f32_max(a: u32, b: u32) -> (r: u32)
    ensures
        r == spec_f32_max(a, b),
{
    if f32_is_nan(a) {
        b
    } else if f32_is_nan(b) {
        a
    } else if f32_key(a) <= f32_key(b) {
        b
    } else {
        a
    }
}

/// Clamp an encoding into `[lo, hi]`; the bounds must be ordered non-NaN values.
pub fn f32_clamp(x: u32, lo: u32, hi: u32) -> (r: u32)
    requires
        spec_f32_le(lo, hi),
    ensures
        r == spec_f32_clamp(x, lo, hi),
{
    if f32_is_nan(x) {
        x
    } else if f32_lt(x, lo) {
        lo
    } else if f32_lt(hi, x) {
        hi
    } else {
        x
    }
}

/// Negate an encoding by flipping its sign bit.
pub fn f32_neg(b: u32) -> (r: u32)
    ensures
        r == spec_f32_neg(b),
{
    b ^ F32_SIGN_MASK
}

/// After normalization through `spec_f32_min`/`spec_f32_max`, the two bounds
/// are ordered whenever at least one of the inputs is not NaN.
pub proof fn lemma_min_max_ordered(a: u32, b: u32)
    requires
        !spec_f32_is_nan(a) || !spec_f32_is_nan(b),
    ensures
        spec_f32_le(spec_f32_min(a, b), spec_f32_max(a, b)),
{
}

} // verus!
