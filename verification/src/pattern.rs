//! Two's complement: a signed integer and the unsigned integer of the same
//! width that has the same bits.

use vstd::prelude::*;
use crate::octets::{lemma_octets_wrap, octets, span};

verus! {

/// The unsigned integer with the bits of `x`.
pub open spec fn bits_i8(x: i8) -> u8 {
    if x < 0 {
        (x + 0x100) as u8
    } else {
        x as u8
    }
}

/// The signed integer with the bits of `u`.
pub open spec fn signed_u8(u: u8) -> i8 {
    if u >= 0x80 {
        (u - 0x100) as i8
    } else {
        u as i8
    }
}

/// The unsigned integer with the bits of `x`.
pub open spec fn bits_i16(x: i16) -> u16 {
    if x < 0 {
        (x + 0x1_0000) as u16
    } else {
        x as u16
    }
}

/// The signed integer with the bits of `u`.
pub open spec fn signed_u16(u: u16) -> i16 {
    if u >= 0x8000 {
        (u - 0x1_0000) as i16
    } else {
        u as i16
    }
}

/// The unsigned integer with the bits of `x`.
pub open spec fn bits_i32(x: i32) -> u32 {
    if x < 0 {
        (x + 0x1_0000_0000) as u32
    } else {
        x as u32
    }
}

/// The signed integer with the bits of `u`.
pub open spec fn signed_u32(u: u32) -> i32 {
    if u >= 0x8000_0000 {
        (u - 0x1_0000_0000) as i32
    } else {
        u as i32
    }
}

/// The unsigned integer with the bits of `x`.
pub open spec fn bits_i64(x: i64) -> u64 {
    if x < 0 {
        (x + 0x1_0000_0000_0000_0000) as u64
    } else {
        x as u64
    }
}

/// The signed integer with the bits of `u`.
pub open spec fn signed_u64(u: u64) -> i64 {
    if u >= 0x8000_0000_0000_0000 {
        (u - 0x1_0000_0000_0000_0000) as i64
    } else {
        u as i64
    }
}

/// An `i8` and the unsigned integer with its bits have the same octets.
pub proof fn lemma_bits_i8_octets(x: i8)
    ensures
        octets(bits_i8(x) as int, 1) == octets(x as int, 1),
{
    reveal_with_fuel(span, 2);
    lemma_octets_wrap(x as int, 1);
}

/// An `i16` and the unsigned integer with its bits have the same octets.
pub proof fn lemma_bits_i16_octets(x: i16)
    ensures
        octets(bits_i16(x) as int, 2) == octets(x as int, 2),
{
    reveal_with_fuel(span, 3);
    lemma_octets_wrap(x as int, 2);
}

/// An `i32` and the unsigned integer with its bits have the same octets.
pub proof fn lemma_bits_i32_octets(x: i32)
    ensures
        octets(bits_i32(x) as int, 4) == octets(x as int, 4),
{
    reveal_with_fuel(span, 5);
    lemma_octets_wrap(x as int, 4);
}

/// An `i64` and the unsigned integer with its bits have the same octets.
pub proof fn lemma_bits_i64_octets(x: i64)
    ensures
        octets(bits_i64(x) as int, 8) == octets(x as int, 8),
{
    reveal_with_fuel(span, 9);
    lemma_octets_wrap(x as int, 8);
}

} // verus!
