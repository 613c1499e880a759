//! The direction test of the continuous angle: an unsigned angle from the
//! normal reference vector is measured on the right side when the sample
//! lies less than a quarter turn from the right reference vector.
//!
//! Angles are single-precision bit patterns, compared as IEEE 754 `<` does.

use vstd::prelude::*;
use crate::order::{is_nan_bits, is_zero_bits, magnitude, order_key, total_order_key};

verus! {

/// The single-precision value nearest to a quarter turn, in radians.
pub const QUARTER_TURN_BITS: u32 = 0x3fc9_0fdb;

/// IEEE 754 `a < b`: false when either is a NaN, and between the two zeros;
/// otherwise the total order.
pub open spec fn float_less(a: u32, b: u32) -> bool {
    &&& !is_nan_bits(a)
    &&& !is_nan_bits(b)
    &&& !(is_zero_bits(a) && is_zero_bits(b))
    &&& total_order_key(a) < total_order_key(b)
}

/// IEEE 754 `a < b` on two bit patterns.
pub fn less_than(a: u32, b: u32) -> (r: bool)
    ensures
        r == float_less(a, b),
{
    let ma = magnitude(a);
    let mb = magnitude(b);
    if ma > 0x7f80_0000 || mb > 0x7f80_0000 {
        false
    } else if ma == 0 && mb == 0 {
        false
    } else {
        order_key(a) < order_key(b)
    }
}

/// Whether the unsigned angle from the normal reference vector must be
/// reflected (taken as a full turn minus itself): when the angle to the
/// right reference vector is not below a quarter turn.
pub fn needs_reflection(angle_to_right: u32) -> (r: bool)
    ensures
        r == !float_less(angle_to_right, QUARTER_TURN_BITS),
{
    !less_than(angle_to_right, QUARTER_TURN_BITS)
}

} // verus!
