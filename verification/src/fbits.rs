//! Bit-level model of IEEE-754 binary64 values.
//!
//! The evaluator stores every scalar as the 64-bit pattern of a binary64
//! value.  This module gives the pattern a meaning: which patterns are NaN,
//! which are finite, and how two non-NaN patterns compare under the IEEE
//! ordering.  The ordering is expressed through `spec_key`, a signed integer
//! key that is monotone in the encoded value: for non-NaN patterns `a` and
//! `b`, the encoded value of `a` is less than that of `b` exactly when
//! `spec_key(a) < spec_key(b)`, and the two encode the same value exactly
//! when the keys are equal (the two zero patterns share the key 0).
//!
//! On top of the ordering it defines saturation (`clamp_bits`), magnitude
//! (`abs_bits`, sign bit cleared) and the larger-of-two operation
//! (`max_bits`), each as a spec function together with a verified executable
//! form working purely on the bit patterns.

use vstd::prelude::*;

verus! {

/// Mask of the sign bit of a binary64 pattern.
pub const F64_SIGN_MASK: u64 = 0x8000_0000_0000_0000;

/// Mask of the exponent bits of a binary64 pattern.
pub const F64_EXP_MASK: u64 = 0x7ff0_0000_0000_0000;

/// Mask of the mantissa bits of a binary64 pattern.
pub const F64_MANT_MASK: u64 = 0x000f_ffff_ffff_ffff;

/// Mask of everything but the sign bit.
pub const F64_ABS_MASK: u64 = 0x7fff_ffff_ffff_ffff;

/// Bit pattern of +0.0.
pub const BITS_POS_ZERO: u64 = 0;

/// Bit pattern of 1.0.
pub const BITS_ONE: u64 = 0x3ff0_0000_0000_0000;

/// Bit pattern of 2.0.
pub const BITS_TWO: u64 = 0x4000_0000_0000_0000;

/// Bit pattern of 0.5.
pub const BITS_HALF: u64 = 0x3fe0_0000_0000_0000;

/// Bit pattern of -1.0.
pub const BITS_NEG_ONE: u64 = 0xbff0_0000_0000_0000;

/// Bit pattern of 0.001, the smallest scale a noise node distinguishes.
pub const BITS_MILLI: u64 = 0x3f50_624d_d2f1_a9fc;

/// Bit pattern of the binary64 machine epsilon, 2^-52.
pub const BITS_EPSILON: u64 = 0x3cb0_0000_0000_0000;

/// The pattern encodes a NaN: exponent all ones, mantissa non-zero.
pub open spec fn spec_is_nan(bits: u64) -> bool {
    bits & F64_EXP_MASK == F64_EXP_MASK && bits & F64_MANT_MASK != 0
}

/// The pattern encodes a finite value: exponent not all ones.
pub open spec fn spec_is_finite(bits: u64) -> bool {
    bits & F64_EXP_MASK != F64_EXP_MASK
}

/// The pattern encodes a zero (either sign).
pub open spec fn spec_is_zero(bits: u64) -> bool {
    bits & F64_ABS_MASK == 0
}

/// The sign bit is set.
pub open spec fn spec_sign(bits: u64) -> bool {
    bits & F64_SIGN_MASK != 0
}

/// Magnitude field of the pattern: everything but the sign bit.
pub open spec fn spec_mag(bits: u64) -> int {
    (bits & F64_ABS_MASK) as int
}

/// Order key of a pattern.  For non-NaN patterns the IEEE encoding is
/// monotone in the magnitude bits, so negating the magnitude of negative
/// patterns yields a key that orders patterns exactly as the encoded
/// values, with both zero patterns mapping to 0.
pub open spec fn spec_key(bits: u64) -> int {
    if spec_sign(bits) {
        -spec_mag(bits)
    } else {
        spec_mag(bits)
    }
}

/// The IEEE `<` relation on two patterns: false whenever either is NaN.
pub open spec fn spec_lt(a: u64, b: u64) -> bool {
    !spec_is_nan(a) && !spec_is_nan(b) && spec_key(a) < spec_key(b)
}

/// The IEEE `<=` relation on two patterns: false whenever either is NaN.
pub open spec fn spec_le(a: u64, b: u64) -> bool {
    !spec_is_nan(a) && !spec_is_nan(b) && spec_key(a) <= spec_key(b)
}

/// Magnitude of the pattern: the sign bit cleared, as `f64::abs` computes it.
pub open spec fn spec_abs(bits: u64) -> u64 {
    bits & F64_ABS_MASK
}

/// Saturation of `v` into `[lo, hi]`, with the branch structure of
/// `f64::clamp`: a NaN input passes through unchanged.
pub open spec fn spec_clamp(v: u64, lo: u64, hi: u64) -> u64 {
    if spec_lt(v, lo) {
        lo
    } else if spec_lt(hi, v) {
        hi
    } else {
        v
    }
}

/// The larger of two patterns, with NaN ignored as in `f64::max`.  Intended
/// for a non-NaN, non-zero `b`, where it agrees with `f64::max` exactly.
pub open spec fn spec_max(a: u64, b: u64) -> u64 {
    if spec_is_nan(a) {
        b
    } else if spec_is_nan(b) {
        a
    } else if spec_key(a) >= spec_key(b) {
        a
    } else {
        b
    }
}

/// Exec form of `spec_is_nan`.
pub fn is_nan_bits(bits: u64) -> (r: bool)
    ensures
        r == spec_is_nan(bits),
{
    bits & F64_EXP_MASK == F64_EXP_MASK && bits & F64_MANT_MASK != 0
}

/// Exec form of `spec_is_zero`.
pub fn is_zero_bits(bits: u64) -> (r: bool)
    ensures
        r == spec_is_zero(bits),
{
    bits & F64_ABS_MASK == 0
}

/// Exec form of `spec_abs`: clears the sign bit.
pub fn abs_bits(bits: u64) -> (r: u64)
    ensures
        r == spec_abs(bits),
{
    bits & F64_ABS_MASK
}

/// Exec form of `spec_lt`: compares magnitude fields according to the signs.
pub fn lt_bits(a: u64, b: u64) -> (r: bool)
    ensures
        r == spec_lt(a, b),
{
    if is_nan_bits(a) || is_nan_bits(b) {
        return false;
    }
    let sa: bool = a & F64_SIGN_MASK != 0;
    let sb: bool = b & F64_SIGN_MASK != 0;
    let ma: u64 = a & F64_ABS_MASK;
    let mb: u64 = b & F64_ABS_MASK;
    if sa && sb {
        mb < ma
    } else if !sa && !sb {
        ma < mb
    } else if sa {
        // a <= 0 <= b: strictly less unless both are zeros
        ma != 0 || mb != 0
    } else {
        false
    }
}

/// Exec form of `spec_le`.
pub fn le_bits(a: u64, b: u64) -> (r: bool)
    ensures
        r == spec_le(a, b),
{
    if is_nan_bits(a) || is_nan_bits(b) {
        return false;
    }
    !lt_bits(b, a)
}

/// Exec form of `spec_clamp`.
pub fn clamp_bits(v: u64, lo: u64, hi: u64) -> (r: u64)
    ensures
        r == spec_clamp(v, lo, hi),
{
    if lt_bits(v, lo) {
        lo
    } else if lt_bits(hi, v) {
        hi
    } else {
        v
    }
}

/// Exec form of `spec_max`.
pub fn max_bits(a: u64, b: u64) -> (r: u64)
    ensures
        r == spec_max(a, b),
{
    if is_nan_bits(a) {
        b
    } else if is_nan_bits(b) {
        a
    } else if lt_bits(a, b) {
        b
    } else {
        a
    }
}

/// +0.0 is strictly below the machine epsilon in the IEEE order, and its
/// magnitude is itself.
pub proof fn lemma_zero_below_epsilon()
    ensures
        spec_lt(BITS_POS_ZERO, BITS_EPSILON),
        spec_abs(BITS_POS_ZERO) == BITS_POS_ZERO,
{
    assert(0u64 & 0x7fff_ffff_ffff_ffffu64 == 0u64) by (bit_vector);
    assert(0u64 & 0x7ff0_0000_0000_0000u64 != 0x7ff0_0000_0000_0000u64) by (bit_vector);
    assert(0u64 & 0x8000_0000_0000_0000u64 == 0u64) by (bit_vector);
    assert(0x3cb0_0000_0000_0000u64 & 0x7ff0_0000_0000_0000u64 != 0x7ff0_0000_0000_0000u64)
        by (bit_vector);
    assert(0x3cb0_0000_0000_0000u64 & 0x8000_0000_0000_0000u64 == 0u64) by (bit_vector);
    assert(0x3cb0_0000_0000_0000u64 & 0x7fff_ffff_ffff_ffffu64 == 0x3cb0_0000_0000_0000u64)
        by (bit_vector);
}

/// A value saturated into a well-ordered, NaN-free interval stays inside it.
pub proof fn lemma_clamp_in_range(v: u64, lo: u64, hi: u64)
    requires
        !spec_is_nan(v),
        !spec_is_nan(lo),
        !spec_is_nan(hi),
        spec_le(lo, hi),
    ensures
        spec_le(lo, spec_clamp(v, lo, hi)),
        spec_le(spec_clamp(v, lo, hi), hi),
{
}

} // verus!
