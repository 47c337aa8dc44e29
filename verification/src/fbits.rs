//! Single-precision values carried as their IEEE 754 bit patterns.
//!
//! The library stores every real-valued quantity (gene, weight, bias,
//! fitness) as the `u32` bit pattern of the single-precision value it
//! encodes.  Arithmetic and ordering on those patterns are delegated to the
//! rustc_apfloat software implementation of IEEE 754, behind the trusted
//! wrappers below; each operation's result is a pure function of the operand
//! bit patterns, which the uninterpreted names record.

use vstd::prelude::*;
use rustc_apfloat::Float;
use rustc_apfloat::ieee::Single;

verus! {

/// Bit pattern of positive zero.
pub const ZERO_BITS: u32 = 0;
/// Bit pattern of one.
pub const ONE_BITS: u32 = 0x3F80_0000;
/// Bit pattern of negative one.
pub const NEG_ONE_BITS: u32 = 0xBF80_0000;
/// Bit pattern of positive infinity.
pub const INF_BITS: u32 = 0x7F80_0000;
/// Bit pattern of negative infinity.
pub const NEG_INF_BITS: u32 = 0xFF80_0000;

pub uninterp spec fn spec_add_bits(a: u32, b: u32) -> u32;

pub uninterp spec fn spec_sub_bits(a: u32, b: u32) -> u32;

pub uninterp spec fn spec_mul_bits(a: u32, b: u32) -> u32;

pub uninterp spec fn spec_div_bits(a: u32, b: u32) -> u32;

pub uninterp spec fn spec_cmp_bits(a: u32, b: u32) -> int;

pub uninterp spec fn spec_uint_bits(n: nat) -> u32;

/// Relies on rustc_apfloat's Single addition (round to nearest, ties to
/// even): the sum of the two encoded values.
#[verifier::external_body]
pub(crate) fn fadd(a: u32, b: u32) -> (r: u32)
    ensures
        r == spec_add_bits(a, b),
{
    (Single::from_bits(a as u128) + Single::from_bits(b as u128)).value.to_bits() as u32
}

/// Relies on rustc_apfloat's Single subtraction (round to nearest, ties to
/// even): the difference of the two encoded values.
#[verifier::external_body]
pub(crate) fn fsub(a: u32, b: u32) -> (r: u32)
    ensures
        r == spec_sub_bits(a, b),
{
    (Single::from_bits(a as u128) - Single::from_bits(b as u128)).value.to_bits() as u32
}

/// Relies on rustc_apfloat's Single multiplication (round to nearest, ties
/// to even): the product of the two encoded values.
#[verifier::external_body]
pub(crate) fn fmul(a: u32, b: u32) -> (r: u32)
    ensures
        r == spec_mul_bits(a, b),
{
    (Single::from_bits(a as u128) * Single::from_bits(b as u128)).value.to_bits() as u32
}

/// Relies on rustc_apfloat's Single division (round to nearest, ties to
/// even): the quotient of the two encoded values.
#[verifier::external_body]
pub(crate) fn fdiv(a: u32, b: u32) -> (r: u32)
    ensures
        r == spec_div_bits(a, b),
{
    (Single::from_bits(a as u128) / Single::from_bits(b as u128)).value.to_bits() as u32
}

/// Relies on Single::partial_cmp: the IEEE 754 ordering of the two encoded
/// values, unordered exactly when a NaN is involved.  The code is -1 for
/// less, 0 for equal, 1 for greater and 2 for unordered.
#[verifier::external_body]
pub(crate) fn fcmp(a: u32, b: u32) -> (r: i8)
    ensures
        r as int == spec_cmp_bits(a, b),
        r == -1i8 || r == 0i8 || r == 1i8 || r == 2i8,
{
    match Single::from_bits(a as u128).partial_cmp(&Single::from_bits(b as u128)) {
        Some(core::cmp::Ordering::Less) => -1,
        Some(core::cmp::Ordering::Equal) => 0,
        Some(core::cmp::Ordering::Greater) => 1,
        None => 2,
    }
}

/// Relies on rustc_apfloat's Single::from_u128 (round to nearest, ties to
/// even): the encoding of the given unsigned integer.
#[verifier::external_body]
pub(crate) fn fuint(n: usize) -> (r: u32)
    ensures
        r == spec_uint_bits(n as nat),
{
    Single::from_u128(n as u128).value.to_bits() as u32
}

pub open spec fn lt_bits(a: u32, b: u32) -> bool {
    spec_cmp_bits(a, b) == -1
}

pub open spec fn eq_bits(a: u32, b: u32) -> bool {
    spec_cmp_bits(a, b) == 0
}

pub open spec fn gt_bits(a: u32, b: u32) -> bool {
    spec_cmp_bits(a, b) == 1
}

pub open spec fn le_bits(a: u32, b: u32) -> bool {
    lt_bits(a, b) || eq_bits(a, b)
}

pub open spec fn ge_bits(a: u32, b: u32) -> bool {
    gt_bits(a, b) || eq_bits(a, b)
}

/// A pattern encodes NaN exactly when it is unordered against itself.
pub open spec fn is_nan_bits(a: u32) -> bool {
    spec_cmp_bits(a, a) == 2
}

pub(crate) fn flt(a: u32, b: u32) -> (r: bool)
    ensures
        r == lt_bits(a, b),
{
    fcmp(a, b) == -1
}

pub(crate) fn feq(a: u32, b: u32) -> (r: bool)
    ensures
        r == eq_bits(a, b),
{
    fcmp(a, b) == 0
}

pub(crate) fn fgt(a: u32, b: u32) -> (r: bool)
    ensures
        r == gt_bits(a, b),
{
    fcmp(a, b) == 1
}

pub(crate) fn fle(a: u32, b: u32) -> (r: bool)
    ensures
        r == le_bits(a, b),
{
    let c = fcmp(a, b);
    c == -1 || c == 0
}

pub(crate) fn fge(a: u32, b: u32) -> (r: bool)
    ensures
        r == ge_bits(a, b),
{
    let c = fcmp(a, b);
    c == 1 || c == 0
}

/// A pattern encodes a finite value exactly when it lies strictly between
/// the two infinities.
pub open spec fn is_finite_bits(a: u32) -> bool {
    gt_bits(a, NEG_INF_BITS) && lt_bits(a, INF_BITS)
}

pub(crate) fn ffinite(a: u32) -> (r: bool)
    ensures
        r == is_finite_bits(a),
{
    let lo = fgt(a, NEG_INF_BITS);
    let hi = flt(a, INF_BITS);
    lo && hi
}

/// Left fold of addition over a sequence, starting from positive zero: the
/// sum a running accumulation would produce.
pub open spec fn spec_sum_fold(s: Seq<u32>) -> u32
    decreases s.len(),
{
    if s.len() == 0 {
        ZERO_BITS
    } else {
        spec_add_bits(spec_sum_fold(s.drop_last()), s.last())
    }
}

/// The smaller of two encoded values; the first operand wins ties.
pub open spec fn spec_min2_bits(a: u32, b: u32) -> u32 {
    if lt_bits(b, a) {
        b
    } else {
        a
    }
}

/// The larger of two encoded values; the first operand wins ties.
pub open spec fn spec_max2_bits(a: u32, b: u32) -> u32 {
    if gt_bits(b, a) {
        b
    } else {
        a
    }
}

/// Left fold of the two-place minimum over a non-empty sequence.
pub open spec fn spec_min_fold(s: Seq<u32>) -> u32
    decreases s.len(),
{
    if s.len() <= 1 {
        s[0]
    } else {
        spec_min2_bits(spec_min_fold(s.drop_last()), s.last())
    }
}

/// Left fold of the two-place maximum over a non-empty sequence.
pub open spec fn spec_max_fold(s: Seq<u32>) -> u32
    decreases s.len(),
{
    if s.len() <= 1 {
        s[0]
    } else {
        spec_max2_bits(spec_max_fold(s.drop_last()), s.last())
    }
}

} // verus!
