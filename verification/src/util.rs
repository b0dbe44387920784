//! Bit helpers and the wraparound arithmetic the processor's 8- and 16-bit
//! quantities obey.

use vstd::prelude::*;

verus! {

/// 8-bit addition with wraparound.
pub open spec fn spec_wrapping_add8(x: u8, y: u8) -> u8 {
    if x + y > 255 {
        (x + y - 256) as u8
    } else {
        (x + y) as u8
    }
}

/// 8-bit subtraction with wraparound.
pub open spec fn spec_wrapping_sub8(x: u8, y: u8) -> u8 {
    if x - y < 0 {
        (x - y + 256) as u8
    } else {
        (x - y) as u8
    }
}

/// 16-bit addition with wraparound.
pub open spec fn spec_wrapping_add16(x: u16, y: u16) -> u16 {
    if x + y > 0xFFFF {
        (x + y - 0x10000) as u16
    } else {
        (x + y) as u16
    }
}

/// 16-bit subtraction with wraparound.
pub open spec fn spec_wrapping_sub16(x: u16, y: u16) -> u16 {
    if x - y < 0 {
        (x - y + 0x10000) as u16
    } else {
        (x - y) as u16
    }
}

/// Bit `i` of `x`, as 0 or 1. Index 0 is the least significant bit and
/// index 7 the most significant.
pub fn get_bit(x: u8, i: u8) -> (r: u8)
    requires
        i < 8,
    ensures
        r == (x >> i) & 1,
{
    (x >> i) & 1
}

/// All eight bits of `x`, least significant first.
pub fn get_bits(x: u8) -> (r: [bool; 8])
    ensures
        forall|i: int| 0 <= i < 8 ==> r[i] == ((x >> (i as u8)) & 1 == 1),
{
    [
        get_bit(x, 0) == 1,
        get_bit(x, 1) == 1,
        get_bit(x, 2) == 1,
        get_bit(x, 3) == 1,
        get_bit(x, 4) == 1,
        get_bit(x, 5) == 1,
        get_bit(x, 6) == 1,
        get_bit(x, 7) == 1,
    ]
}

} // verus!
