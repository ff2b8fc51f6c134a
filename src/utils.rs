//! Helpers for nibbles, four-bit words kept in a byte.
use vstd::prelude::*;

use crate::width::{mask, to_signed, Width};

verus! {

/// All four bits of a nibble set.
pub const NIBBLE_U8: u8 = 0xF;

/// Largest nibble whose sign bit is clear.
pub const MAX_I4_U: u8 = 7;

/// The low four bits of a byte.
pub fn to_u4(val: u8) -> (r: u8)
    ensures
        r == val % 16,
{
    assert(val & 0xF == val % 16) by (bit_vector);
    val & NIBBLE_U8
}

/// The low four bits of the pattern of a 32-bit integer.
pub fn i32_to_u4(val: i32) -> (r: u8)
    ensures
        r == mask(val, Width::W4),
{
    Width::W4.mask(val) as u8
}

/// Whether a nibble has its sign bit set.
pub fn negative(val: u8) -> (r: bool)
    ensures
        r == (val > MAX_I4_U),
{
    val > MAX_I4_U
}

/// The two's-complement reading of the low four bits of a byte.
pub fn to_i4(val: u8) -> (r: i8)
    ensures
        r == to_signed((val % 16) as nat, Width::W4),
{
    let val = to_u4(val);
    if val > MAX_I4_U {
        val as i8 - 16
    } else {
        val as i8
    }
}

} // verus!
