//! Binary64 arithmetic on bit patterns.
//!
//! The four rounded operations of the evaluator (addition, subtraction,
//! multiplication, division) and the narrowing conversion to binary32 are
//! performed by `rustc_apfloat`, a software implementation of IEEE-754
//! arithmetic with round-to-nearest-even, the rounding every Rust float
//! operation uses.  Each operation is named by an uninterpreted spec
//! function of the operand bit patterns; the contracts of the evaluator are
//! stated over those names.

use vstd::prelude::*;

use rustc_apfloat::Float;
use rustc_apfloat::FloatConvert;

verus! {

/// The IEEE-754 binary64 sum of the two operand patterns, rounded to
/// nearest-even.
pub uninterp spec fn add_bits(a: u64, b: u64) -> u64;

/// The IEEE-754 binary64 difference of the two operand patterns, rounded to
/// nearest-even.
pub uninterp spec fn sub_bits(a: u64, b: u64) -> u64;

/// The IEEE-754 binary64 product of the two operand patterns, rounded to
/// nearest-even.
pub uninterp spec fn mul_bits(a: u64, b: u64) -> u64;

/// The IEEE-754 binary64 quotient of the two operand patterns, rounded to
/// nearest-even.
pub uninterp spec fn div_bits(a: u64, b: u64) -> u64;

/// The IEEE-754 binary32 pattern nearest to the binary64 operand pattern
/// (round-to-nearest-even), as a `f64`-to-`f32` cast computes it.
pub uninterp spec fn narrow_bits(a: u64) -> u32;

/// Relies on the `Add` impl of `rustc_apfloat::ieee::Double`: IEEE-754
/// binary64 addition, rounded to nearest-even, a deterministic function of
/// the operand bit patterns.
#[verifier::external_body]
pub(crate) fn fadd(a: u64, b: u64) -> (r: u64)
    ensures
        r == add_bits(a, b),
{
    let x = rustc_apfloat::ieee::Double::from_bits(a as u128);
    let y = rustc_apfloat::ieee::Double::from_bits(b as u128);
    (x + y).value.to_bits() as u64
}

/// Relies on the `Sub` impl of `rustc_apfloat::ieee::Double`: IEEE-754
/// binary64 subtraction, rounded to nearest-even, a deterministic function
/// of the operand bit patterns.  A finite value subtracted from itself gives
/// an exact zero, which round-to-nearest-even signs positively.
#[verifier::external_body]
pub(crate) fn fsub(a: u64, b: u64) -> (r: u64)
    ensures
        r == sub_bits(a, b),
        a == b && crate::fbits::spec_is_finite(a) ==> r == crate::fbits::BITS_POS_ZERO,
{
    let x = rustc_apfloat::ieee::Double::from_bits(a as u128);
    let y = rustc_apfloat::ieee::Double::from_bits(b as u128);
    (x - y).value.to_bits() as u64
}

/// Relies on the `Mul` impl of `rustc_apfloat::ieee::Double`: IEEE-754
/// binary64 multiplication, rounded to nearest-even, a deterministic
/// function of the operand bit patterns.
#[verifier::external_body]
pub(crate) fn fmul(a: u64, b: u64) -> (r: u64)
    ensures
        r == mul_bits(a, b),
{
    let x = rustc_apfloat::ieee::Double::from_bits(a as u128);
    let y = rustc_apfloat::ieee::Double::from_bits(b as u128);
    (x * y).value.to_bits() as u64
}

/// Relies on the `Div` impl of `rustc_apfloat::ieee::Double`: IEEE-754
/// binary64 division, rounded to nearest-even, a deterministic function of
/// the operand bit patterns.
#[verifier::external_body]
pub(crate) fn fdiv(a: u64, b: u64) -> (r: u64)
    ensures
        r == div_bits(a, b),
{
    let x = rustc_apfloat::ieee::Double::from_bits(a as u128);
    let y = rustc_apfloat::ieee::Double::from_bits(b as u128);
    (x / y).value.to_bits() as u64
}

/// Relies on `rustc_apfloat`'s `FloatConvert` between `Double` and `Single`:
/// the IEEE-754 conversion from binary64 to binary32, rounded to
/// nearest-even, a deterministic function of the operand bit pattern.
#[verifier::external_body]
pub(crate) fn fnarrow(a: u64) -> (r: u32)
    ensures
        r == narrow_bits(a),
{
    let x = rustc_apfloat::ieee::Double::from_bits(a as u128);
    let mut loses_info = false;
    let s: rustc_apfloat::ieee::Single = x.convert(&mut loses_info).value;
    s.to_bits() as u32
}

} // verus!
