//! The IEEE 754 total order on single-precision values, held as their bit
//! patterns.

use vstd::prelude::*;

verus! {

/// The rank of a single-precision bit pattern in the IEEE 754 total order
/// (the order of std's `total_cmp`): negative NaNs, negative infinity, the
/// negative numbers by decreasing magnitude, negative zero, positive zero,
/// the positive numbers by increasing magnitude, positive infinity, positive
/// NaNs.
pub open spec fn total_order_key(bits: u32) -> int {
    if bits >= 0x8000_0000 {
        0x7fff_ffff - bits as int
    } else {
        bits as int
    }
}

/// The rank of a bit pattern in the IEEE 754 total order.
pub fn order_key(bits: u32) -> (k: i64)
    ensures
        k as int == total_order_key(bits),
{
    if bits >= 0x8000_0000 {
        0x7fff_ffff_i64 - bits as i64
    } else {
        bits as i64
    }
}

/// The bit pattern without its sign bit.
pub open spec fn magnitude_bits(b: u32) -> u32 {
    if b >= 0x8000_0000 {
        (b - 0x8000_0000) as u32
    } else {
        b
    }
}

/// The bit pattern is a NaN.
pub open spec fn is_nan_bits(b: u32) -> bool {
    magnitude_bits(b) > 0x7f80_0000
}

/// The bit pattern is a positive or a negative zero.
pub open spec fn is_zero_bits(b: u32) -> bool {
    magnitude_bits(b) == 0
}

/// The bit pattern without its sign bit.
pub fn magnitude(b: u32) -> (r: u32)
    ensures
        r == magnitude_bits(b),
{
    if b >= 0x8000_0000 {
        b - 0x8000_0000
    } else {
        b
    }
}

/// The rank of a bit pattern in the total order, except that every NaN,
/// whatever its sign and payload, takes one rank above all numbers.
pub open spec fn nan_last_key(bits: u32) -> int {
    if is_nan_bits(bits) {
        0x1_0000_0000
    } else {
        total_order_key(bits)
    }
}

/// The rank of a bit pattern with every NaN placed above all numbers.
pub fn nan_last_order_key(bits: u32) -> (k: i64)
    ensures
        k as int == nan_last_key(bits),
{
    if magnitude(bits) > 0x7f80_0000 {
        0x1_0000_0000_i64
    } else {
        order_key(bits)
    }
}

} // verus!
