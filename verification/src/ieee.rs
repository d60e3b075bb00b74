//! Single-precision IEEE-754 values carried as their bit patterns.
//!
//! Confidence scores and thresholds travel through the library as `u32` bit
//! patterns; the logic only ever orders them. The order below is the IEEE
//! one: NaN is unordered, `-0` equals `+0`, and otherwise the sign and the
//! magnitude bits (exponent over mantissa) order the values.

use vstd::prelude::*;

verus! {

/// The bit pattern is a NaN: all exponent bits set and a non-zero mantissa.
pub open spec fn bits_is_nan(b: u32) -> bool {
    (b & 0x7FFF_FFFFu32) > 0x7F80_0000u32
}

/// Position of a non-NaN value on the number line: the magnitude bits,
/// negated when the sign bit is set.
pub open spec fn bits_order_key(b: u32) -> int {
    let mag = (b & 0x7FFF_FFFFu32) as int;
    if b & 0x8000_0000u32 != 0 {
        -mag
    } else {
        mag
    }
}

/// `a >= b` on the values the patterns encode.
pub open spec fn bits_ge(a: u32, b: u32) -> bool {
    !bits_is_nan(a) && !bits_is_nan(b) && bits_order_key(a) >= bits_order_key(b)
}

/// `a > b` on the values the patterns encode.
pub open spec fn bits_gt(a: u32, b: u32) -> bool {
    !bits_is_nan(a) && !bits_is_nan(b) && bits_order_key(a) > bits_order_key(b)
}

/// On values that are not NaN, `>=` is a total order and `>` its strict part;
/// a NaN is ordered with nothing, itself included.
pub proof fn lemma_bits_order(a: u32, b: u32, c: u32)
    ensures
        !bits_is_nan(a) ==> bits_ge(a, a),
        !bits_is_nan(a) && !bits_is_nan(b) ==> (bits_ge(a, b) || bits_ge(b, a)),
        !bits_is_nan(a) && !bits_is_nan(b) ==> (bits_gt(a, b) <==> !bits_ge(b, a)),
        bits_ge(a, b) && bits_ge(b, c) ==> bits_ge(a, c),
        bits_is_nan(a) ==> !bits_ge(a, b) && !bits_ge(b, a) && !bits_gt(a, b) && !bits_gt(b, a),
{
}

fn order_key(b: u32) -> (k: i64)
    ensures
        k == bits_order_key(b),
{
    let mag = (b & 0x7FFF_FFFFu32) as i64;
    if b & 0x8000_0000u32 != 0 {
        -mag
    } else {
        mag
    }
}

fn is_nan(b: u32) -> (r: bool)
    ensures
        r == bits_is_nan(b),
{
    (b & 0x7FFF_FFFFu32) > 0x7F80_0000u32
}

/// `a >= b` for two single-precision values given by their bit patterns.
pub fn ge(a: u32, b: u32) -> (r: bool)
    ensures
        r == bits_ge(a, b),
{
    !is_nan(a) && !is_nan(b) && order_key(a) >= order_key(b)
}

/// `a > b` for two single-precision values given by their bit patterns.
pub fn gt(a: u32, b: u32) -> (r: bool)
    ensures
        r == bits_gt(a, b),
{
    !is_nan(a) && !is_nan(b) && order_key(a) > order_key(b)
}

} // verus!
