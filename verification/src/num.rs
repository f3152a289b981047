use vstd::prelude::*;

verus! {

use core::cmp::Ordering;

// The runtime's numbers are 64-bit IEEE-754 values, carried by their bit
// pattern so that equality and ordering are defined exactly, bit by bit.
// The four components of a Vec4 are 32-bit IEEE-754 values, handled the
// same way.
//
// For a 64-bit pattern b:
//   sign      = b div 2^63
//   magnitude = b mod 2^63  (exponent and fraction fields together)
//   exponent  = magnitude div 2^52
//   fraction  = b mod 2^52
// The encoding of finite values is monotonic in the magnitude bits, so
// ordering magnitudes as integers orders the absolute values.

/// The sign bit of a 64-bit pattern.
pub open spec fn sign64(b: u64) -> bool {
    b / 0x8000_0000_0000_0000 == 1
}

/// The magnitude bits (everything below the sign) of a 64-bit pattern.
pub open spec fn mag64(b: u64) -> u64 {
    (b % 0x8000_0000_0000_0000) as u64
}

/// The biased exponent field of a 64-bit pattern.
pub open spec fn exp64(b: u64) -> u64 {
    (mag64(b) / 0x10_0000_0000_0000) as u64
}

/// The fraction field of a 64-bit pattern.
pub open spec fn frac64(b: u64) -> u64 {
    (b % 0x10_0000_0000_0000) as u64
}

/// A 64-bit pattern denotes NaN when the exponent field is saturated and
/// the fraction field is not zero.
pub open spec fn is_nan64(b: u64) -> bool {
    exp64(b) == 0x7FF && frac64(b) != 0
}

/// Numeric equality of two non-NaN patterns: both zero (either sign), or
/// the same pattern. NaN is equal to nothing, itself included.
pub open spec fn num_eq(a: u64, b: u64) -> bool {
    &&& !is_nan64(a)
    &&& !is_nan64(b)
    &&& (a == b || (mag64(a) == 0 && mag64(b) == 0))
}

/// The standard numeric order of two non-NaN patterns, by sign and then by
/// magnitude (the encoding is monotonic in the magnitude bits).
pub open spec fn num_cmp(a: u64, b: u64) -> Ordering {
    if mag64(a) == 0 && mag64(b) == 0 {
        Ordering::Equal
    } else if sign64(a) && !sign64(b) {
        Ordering::Less
    } else if !sign64(a) && sign64(b) {
        Ordering::Greater
    } else if !sign64(a) {
        if mag64(a) < mag64(b) {
            Ordering::Less
        } else if mag64(a) == mag64(b) {
            Ordering::Equal
        } else {
            Ordering::Greater
        }
    } else {
        if mag64(a) < mag64(b) {
            Ordering::Greater
        } else if mag64(a) == mag64(b) {
            Ordering::Equal
        } else {
            Ordering::Less
        }
    }
}

/// The partial order of two patterns: no order involving NaN, the standard
/// numeric order otherwise.
pub open spec fn num_partial_cmp(a: u64, b: u64) -> Option<Ordering> {
    if is_nan64(a) || is_nan64(b) {
        None
    } else {
        Some(num_cmp(a, b))
    }
}

/// The total order of two patterns: NaN is equal to NaN and greater than
/// every other value; non-NaN pairs take the standard numeric order.
pub open spec fn num_total_cmp(a: u64, b: u64) -> Ordering {
    if is_nan64(a) && is_nan64(b) {
        Ordering::Equal
    } else if is_nan64(a) {
        Ordering::Greater
    } else if is_nan64(b) {
        Ordering::Less
    } else {
        num_cmp(a, b)
    }
}

/// The sign bit of a 32-bit pattern.
pub open spec fn sign32(b: u32) -> bool {
    b / 0x8000_0000 == 1
}

/// The magnitude bits of a 32-bit pattern.
pub open spec fn mag32(b: u32) -> u32 {
    (b % 0x8000_0000) as u32
}

/// The biased exponent field of a 32-bit pattern.
pub open spec fn exp32(b: u32) -> u32 {
    (mag32(b) / 0x80_0000) as u32
}

/// The fraction field of a 32-bit pattern.
pub open spec fn frac32(b: u32) -> u32 {
    (b % 0x80_0000) as u32
}

/// A 32-bit pattern denotes NaN when the exponent field is saturated and
/// the fraction field is not zero.
pub open spec fn is_nan32(b: u32) -> bool {
    exp32(b) == 0xFF && frac32(b) != 0
}

/// Numeric equality of two 32-bit patterns, as for the 64-bit form.
pub open spec fn num_eq32(a: u32, b: u32) -> bool {
    &&& !is_nan32(a)
    &&& !is_nan32(b)
    &&& (a == b || (mag32(a) == 0 && mag32(b) == 0))
}

/// The standard numeric order of two non-NaN 32-bit patterns.
pub open spec fn num_cmp32(a: u32, b: u32) -> Ordering {
    if mag32(a) == 0 && mag32(b) == 0 {
        Ordering::Equal
    } else if sign32(a) && !sign32(b) {
        Ordering::Less
    } else if !sign32(a) && sign32(b) {
        Ordering::Greater
    } else if !sign32(a) {
        if mag32(a) < mag32(b) {
            Ordering::Less
        } else if mag32(a) == mag32(b) {
            Ordering::Equal
        } else {
            Ordering::Greater
        }
    } else {
        if mag32(a) < mag32(b) {
            Ordering::Greater
        } else if mag32(a) == mag32(b) {
            Ordering::Equal
        } else {
            Ordering::Less
        }
    }
}

/// The partial order of two 32-bit patterns.
pub open spec fn num_partial_cmp32(a: u32, b: u32) -> Option<Ordering> {
    if is_nan32(a) || is_nan32(b) {
        None
    } else {
        Some(num_cmp32(a, b))
    }
}

/// Whether a 64-bit pattern denotes NaN.
pub fn number_is_nan(b: u64) -> (r: bool)
    ensures
        r == is_nan64(b),
{
    let mag: u64 = b % 0x8000_0000_0000_0000;
    mag / 0x10_0000_0000_0000 == 0x7FF && b % 0x10_0000_0000_0000 != 0
}

/// Numeric equality of two 64-bit patterns.
pub fn number_eq(a: u64, b: u64) -> (r: bool)
    ensures
        r == num_eq(a, b),
{
    if number_is_nan(a) || number_is_nan(b) {
        false
    } else {
        a == b || (a % 0x8000_0000_0000_0000 == 0 && b % 0x8000_0000_0000_0000 == 0)
    }
}

fn number_cmp_finite(a: u64, b: u64) -> (r: Ordering)
    ensures
        r == num_cmp(a, b),
{
    let mag_a: u64 = a % 0x8000_0000_0000_0000;
    let mag_b: u64 = b % 0x8000_0000_0000_0000;
    let sign_a: bool = a / 0x8000_0000_0000_0000 == 1;
    let sign_b: bool = b / 0x8000_0000_0000_0000 == 1;
    if mag_a == 0 && mag_b == 0 {
        Ordering::Equal
    } else if sign_a && !sign_b {
        Ordering::Less
    } else if !sign_a && sign_b {
        Ordering::Greater
    } else if !sign_a {
        if mag_a < mag_b {
            Ordering::Less
        } else if mag_a == mag_b {
            Ordering::Equal
        } else {
            Ordering::Greater
        }
    } else {
        if mag_a < mag_b {
            Ordering::Greater
        } else if mag_a == mag_b {
            Ordering::Equal
        } else {
            Ordering::Less
        }
    }
}

/// The partial order of two 64-bit patterns: `None` when either side is NaN.
pub fn number_partial_cmp(a: u64, b: u64) -> (r: Option<Ordering>)
    ensures
        r == num_partial_cmp(a, b),
{
    if number_is_nan(a) || number_is_nan(b) {
        None
    } else {
        Some(number_cmp_finite(a, b))
    }
}

/// The total order of two 64-bit patterns, with NaN equal to NaN and
/// greater than everything else.
pub fn number_total_cmp(a: u64, b: u64) -> (r: Ordering)
    ensures
        r == num_total_cmp(a, b),
{
    let nan_a = number_is_nan(a);
    let nan_b = number_is_nan(b);
    if nan_a && nan_b {
        Ordering::Equal
    } else if nan_a {
        Ordering::Greater
    } else if nan_b {
        Ordering::Less
    } else {
        number_cmp_finite(a, b)
    }
}

/// Whether a 32-bit pattern denotes NaN.
pub fn component_is_nan(b: u32) -> (r: bool)
    ensures
        r == is_nan32(b),
{
    let mag: u32 = b % 0x8000_0000;
    mag / 0x80_0000 == 0xFF && b % 0x80_0000 != 0
}

/// Numeric equality of two 32-bit patterns.
pub fn component_eq(a: u32, b: u32) -> (r: bool)
    ensures
        r == num_eq32(a, b),
{
    if component_is_nan(a) || component_is_nan(b) {
        false
    } else {
        a == b || (a % 0x8000_0000 == 0 && b % 0x8000_0000 == 0)
    }
}

/// The partial order of two 32-bit patterns: `None` when either side is NaN.
pub fn component_partial_cmp(a: u32, b: u32) -> (r: Option<Ordering>)
    ensures
        r == num_partial_cmp32(a, b),
{
    if component_is_nan(a) || component_is_nan(b) {
        return None;
    }
    let mag_a: u32 = a % 0x8000_0000;
    let mag_b: u32 = b % 0x8000_0000;
    let sign_a: bool = a / 0x8000_0000 == 1;
    let sign_b: bool = b / 0x8000_0000 == 1;
    if mag_a == 0 && mag_b == 0 {
        Some(Ordering::Equal)
    } else if sign_a && !sign_b {
        Some(Ordering::Less)
    } else if !sign_a && sign_b {
        Some(Ordering::Greater)
    } else if !sign_a {
        if mag_a < mag_b {
            Some(Ordering::Less)
        } else if mag_a == mag_b {
            Some(Ordering::Equal)
        } else {
            Some(Ordering::Greater)
        }
    } else {
        if mag_a < mag_b {
            Some(Ordering::Greater)
        } else if mag_a == mag_b {
            Some(Ordering::Equal)
        } else {
            Some(Ordering::Less)
        }
    }
}

/// The total numeric order behaves on NaN as the protocol demands: NaN is
/// equal to NaN, above every other value, and non-NaN pairs are ordered by
/// the standard numeric comparison.
pub proof fn lemma_total_order_nan(a: u64, b: u64)
    ensures
        is_nan64(a) && is_nan64(b) ==> num_total_cmp(a, b) == Ordering::Equal,
        is_nan64(a) && !is_nan64(b) ==> num_total_cmp(a, b) == Ordering::Greater,
        !is_nan64(a) && is_nan64(b) ==> num_total_cmp(a, b) == Ordering::Less,
        !is_nan64(a) && !is_nan64(b) ==> num_total_cmp(a, b) == num_cmp(a, b),
{
}


/// The numeric total order is a total order indeed: reflexive,
/// antisymmetric and transitive, with every pair ordered.
pub proof fn lemma_total_order_properties(a: u64, b: u64, c: u64)
    ensures
        num_total_cmp(a, a) == Ordering::Equal,
        num_total_cmp(a, b) == Ordering::Less <==> num_total_cmp(b, a) == Ordering::Greater,
        num_total_cmp(a, b) == Ordering::Equal <==> num_total_cmp(b, a) == Ordering::Equal,
        num_total_cmp(a, b) == Ordering::Less && num_total_cmp(b, c) == Ordering::Less
            ==> num_total_cmp(a, c) == Ordering::Less,
{
}

} // verus!
