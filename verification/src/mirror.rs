//! What conversion yields for each integer type, written out in arithmetic,
//! and the laws that hold of it.

use vstd::prelude::*;
use crate::octets::{lemma_magnitude_of_octets, magnitude, octets, span};
use crate::pattern::{
    bits_i16, bits_i32, bits_i64, bits_i8, lemma_bits_i16_octets, lemma_bits_i32_octets,
    lemma_bits_i64_octets, lemma_bits_i8_octets, signed_u16, signed_u32, signed_u64, signed_u8,
};

verus! {

/// The one octet of `x`: there is nothing to exchange.
pub open spec fn mirror_u8(x: u8) -> u8 {
    x
}

/// The two octets of `x`, last to first.
pub open spec fn mirror_u16(x: u16) -> u16 {
    ((x % 0x100) * 0x100 + x / 0x100) as u16
}

/// The four octets of `x`, last to first.
pub open spec fn mirror_u32(x: u32) -> u32 {
    ((x % 0x100) * 0x100_0000 + (x / 0x100 % 0x100) * 0x1_0000 + (x / 0x1_0000 % 0x100) * 0x100
        + x / 0x100_0000) as u32
}

/// The eight octets of `x`, last to first.
pub open spec fn mirror_u64(x: u64) -> u64 {
    ((x % 0x100) * 0x100_0000_0000_0000 + (x / 0x100 % 0x100) * 0x1_0000_0000_0000 + (x
        / 0x1_0000 % 0x100) * 0x100_0000_0000 + (x / 0x100_0000 % 0x100) * 0x1_0000_0000 + (x
        / 0x1_0000_0000 % 0x100) * 0x100_0000 + (x / 0x100_0000_0000 % 0x100) * 0x1_0000 + (x
        / 0x1_0000_0000_0000 % 0x100) * 0x100 + x / 0x100_0000_0000_0000) as u64
}

/// The bits of `x` with their octets last to first, read as signed again.
pub open spec fn mirror_i8(x: i8) -> i8 {
    signed_u8(mirror_u8(bits_i8(x)))
}

/// The bits of `x` with their octets last to first, read as signed again.
pub open spec fn mirror_i16(x: i16) -> i16 {
    signed_u16(mirror_u16(bits_i16(x)))
}

/// The bits of `x` with their octets last to first, read as signed again.
pub open spec fn mirror_i32(x: i32) -> i32 {
    signed_u32(mirror_u32(bits_i32(x)))
}

/// The bits of `x` with their octets last to first, read as signed again.
pub open spec fn mirror_i64(x: i64) -> i64 {
    signed_u64(mirror_u64(bits_i64(x)))
}

/// Conversion of a `u8` reverses its octets.
pub proof fn lemma_mirror_u8_reverses(x: u8)
    ensures
        octets(mirror_u8(x) as int, 1) == octets(x as int, 1).reverse(),
{
    reveal_with_fuel(octets, 2);
    assert(octets(x as int, 1) =~= octets(x as int, 1).reverse());
}

/// The converted `u8` is the number that the reversed octets stand for.
pub proof fn lemma_mirror_u8_value(x: u8)
    ensures
        mirror_u8(x) == magnitude(octets(x as int, 1).reverse()),
{
    lemma_mirror_u8_reverses(x);
    reveal_with_fuel(span, 2);
    lemma_magnitude_of_octets(mirror_u8(x) as int, 1);
}

/// Converting a `u8` twice gives it back.
pub proof fn lemma_mirror_u8_involution(x: u8)
    ensures
        mirror_u8(mirror_u8(x)) == x,
{
}

/// Conversion leaves a `u8` as it is.
pub proof fn lemma_mirror_u8_identity(x: u8)
    ensures
        mirror_u8(x) == x,
{
}

/// Conversion leaves an `i8` as it is.
pub proof fn lemma_mirror_i8_identity(x: i8)
    ensures
        mirror_i8(x) == x,
{
}

/// Conversion commutes with reading a signed integer as unsigned: the
/// converted `i8` has the bits, and so the octets, of the converted `u8`
/// with the bits of `x`.
pub proof fn lemma_mirror_i8_bits(x: i8)
    ensures
        bits_i8(mirror_i8(x)) == mirror_u8(bits_i8(x)),
        octets(mirror_i8(x) as int, 1) == octets(mirror_u8(bits_i8(x)) as int, 1),
{
    lemma_bits_i8_octets(mirror_i8(x));
}

/// Conversion of an `i8` reverses its octets.
pub proof fn lemma_mirror_i8_reverses(x: i8)
    ensures
        octets(mirror_i8(x) as int, 1) == octets(x as int, 1).reverse(),
{
    lemma_mirror_i8_bits(x);
    lemma_mirror_u8_reverses(bits_i8(x));
    lemma_bits_i8_octets(x);
}

/// Converting an `i8` twice gives it back.
pub proof fn lemma_mirror_i8_involution(x: i8)
    ensures
        mirror_i8(mirror_i8(x)) == x,
{
}

/// Conversion of a `u16` reverses its octets.
pub proof fn lemma_mirror_u16_reverses(x: u16)
    ensures
        octets(mirror_u16(x) as int, 2) == octets(x as int, 2).reverse(),
{
    let m = mirror_u16(x);
    assert({
        &&& m % 256 == x / 256 % 256
        &&& m / 256 % 256 == x % 256
    }) by (bit_vector)
        requires
            m == ((x % 0x100) * 0x100 + x / 0x100) as u16,
    ;
    reveal_with_fuel(octets, 3);
    assert(octets(m as int, 2) =~= octets(x as int, 2).reverse());
}

/// The converted `u16` is the number that the reversed octets stand for.
pub proof fn lemma_mirror_u16_value(x: u16)
    ensures
        mirror_u16(x) == magnitude(octets(x as int, 2).reverse()),
{
    lemma_mirror_u16_reverses(x);
    reveal_with_fuel(span, 3);
    lemma_magnitude_of_octets(mirror_u16(x) as int, 2);
}

/// Converting a `u16` twice gives it back.
pub proof fn lemma_mirror_u16_involution(x: u16)
    ensures
        mirror_u16(mirror_u16(x)) == x,
{
    let m = mirror_u16(x);
    lemma_mirror_u16_reverses(x);
    lemma_mirror_u16_reverses(m);
    assert(octets(mirror_u16(m) as int, 2) =~= octets(x as int, 2));
    reveal_with_fuel(span, 3);
    lemma_magnitude_of_octets(mirror_u16(m) as int, 2);
    lemma_magnitude_of_octets(x as int, 2);
}

/// Conversion commutes with reading a signed integer as unsigned: the
/// converted `i16` has the bits, and so the octets, of the converted `u16`
/// with the bits of `x`.
pub proof fn lemma_mirror_i16_bits(x: i16)
    ensures
        bits_i16(mirror_i16(x)) == mirror_u16(bits_i16(x)),
        octets(mirror_i16(x) as int, 2) == octets(mirror_u16(bits_i16(x)) as int, 2),
{
    lemma_bits_i16_octets(mirror_i16(x));
}

/// Conversion of an `i16` reverses its octets.
pub proof fn lemma_mirror_i16_reverses(x: i16)
    ensures
        octets(mirror_i16(x) as int, 2) == octets(x as int, 2).reverse(),
{
    lemma_mirror_i16_bits(x);
    lemma_mirror_u16_reverses(bits_i16(x));
    lemma_bits_i16_octets(x);
}

/// Converting an `i16` twice gives it back.
pub proof fn lemma_mirror_i16_involution(x: i16)
    ensures
        mirror_i16(mirror_i16(x)) == x,
{
    lemma_mirror_i16_bits(x);
    lemma_mirror_u16_involution(bits_i16(x));
}

/// Conversion of a `u32` reverses its octets.
pub proof fn lemma_mirror_u32_reverses(x: u32)
    ensures
        octets(mirror_u32(x) as int, 4) == octets(x as int, 4).reverse(),
{
    let m = mirror_u32(x);
    assert({
        &&& m % 256 == x / 256 / 256 / 256 % 256
        &&& m / 256 % 256 == x / 256 / 256 % 256
        &&& m / 256 / 256 % 256 == x / 256 % 256
        &&& m / 256 / 256 / 256 % 256 == x % 256
    }) by (bit_vector)
        requires
            m == ((x % 0x100) * 0x100_0000 + (x / 0x100 % 0x100) * 0x1_0000 + (x / 0x1_0000 % 0x100) * 0x100
                + x / 0x100_0000) as u32,
    ;
    reveal_with_fuel(octets, 5);
    assert(octets(m as int, 4) =~= octets(x as int, 4).reverse());
}

/// The converted `u32` is the number that the reversed octets stand for.
pub proof fn lemma_mirror_u32_value(x: u32)
    ensures
        mirror_u32(x) == magnitude(octets(x as int, 4).reverse()),
{
    lemma_mirror_u32_reverses(x);
    reveal_with_fuel(span, 5);
    lemma_magnitude_of_octets(mirror_u32(x) as int, 4);
}

/// Converting a `u32` twice gives it back.
pub proof fn lemma_mirror_u32_involution(x: u32)
    ensures
        mirror_u32(mirror_u32(x)) == x,
{
    let m = mirror_u32(x);
    lemma_mirror_u32_reverses(x);
    lemma_mirror_u32_reverses(m);
    assert(octets(mirror_u32(m) as int, 4) =~= octets(x as int, 4));
    reveal_with_fuel(span, 5);
    lemma_magnitude_of_octets(mirror_u32(m) as int, 4);
    lemma_magnitude_of_octets(x as int, 4);
}

/// Conversion commutes with reading a signed integer as unsigned: the
/// converted `i32` has the bits, and so the octets, of the converted `u32`
/// with the bits of `x`.
pub proof fn lemma_mirror_i32_bits(x: i32)
    ensures
        bits_i32(mirror_i32(x)) == mirror_u32(bits_i32(x)),
        octets(mirror_i32(x) as int, 4) == octets(mirror_u32(bits_i32(x)) as int, 4),
{
    lemma_bits_i32_octets(mirror_i32(x));
}

/// Conversion of an `i32` reverses its octets.
pub proof fn lemma_mirror_i32_reverses(x: i32)
    ensures
        octets(mirror_i32(x) as int, 4) == octets(x as int, 4).reverse(),
{
    lemma_mirror_i32_bits(x);
    lemma_mirror_u32_reverses(bits_i32(x));
    lemma_bits_i32_octets(x);
}

/// Converting an `i32` twice gives it back.
pub proof fn lemma_mirror_i32_involution(x: i32)
    ensures
        mirror_i32(mirror_i32(x)) == x,
{
    lemma_mirror_i32_bits(x);
    lemma_mirror_u32_involution(bits_i32(x));
}

/// Conversion of a `u64` reverses its octets.
pub proof fn lemma_mirror_u64_reverses(x: u64)
    ensures
        octets(mirror_u64(x) as int, 8) == octets(x as int, 8).reverse(),
{
    let m = mirror_u64(x);
    assert({
        &&& m % 256 == x / 256 / 256 / 256 / 256 / 256 / 256 / 256 % 256
        &&& m / 256 % 256 == x / 256 / 256 / 256 / 256 / 256 / 256 % 256
        &&& m / 256 / 256 % 256 == x / 256 / 256 / 256 / 256 / 256 % 256
        &&& m / 256 / 256 / 256 % 256 == x / 256 / 256 / 256 / 256 % 256
        &&& m / 256 / 256 / 256 / 256 % 256 == x / 256 / 256 / 256 % 256
        &&& m / 256 / 256 / 256 / 256 / 256 % 256 == x / 256 / 256 % 256
        &&& m / 256 / 256 / 256 / 256 / 256 / 256 % 256 == x / 256 % 256
        &&& m / 256 / 256 / 256 / 256 / 256 / 256 / 256 % 256 == x % 256
    }) by (bit_vector)
        requires
            m == ((x % 0x100) * 0x100_0000_0000_0000 + (x / 0x100 % 0x100) * 0x1_0000_0000_0000 + (x
                / 0x1_0000 % 0x100) * 0x100_0000_0000 + (x / 0x100_0000 % 0x100) * 0x1_0000_0000 + (x
                / 0x1_0000_0000 % 0x100) * 0x100_0000 + (x / 0x100_0000_0000 % 0x100) * 0x1_0000 + (x
                / 0x1_0000_0000_0000 % 0x100) * 0x100 + x / 0x100_0000_0000_0000) as u64,
    ;
    reveal_with_fuel(octets, 9);
    assert(octets(m as int, 8) =~= octets(x as int, 8).reverse());
}

/// The converted `u64` is the number that the reversed octets stand for.
pub proof fn lemma_mirror_u64_value(x: u64)
    ensures
        mirror_u64(x) == magnitude(octets(x as int, 8).reverse()),
{
    lemma_mirror_u64_reverses(x);
    reveal_with_fuel(span, 9);
    lemma_magnitude_of_octets(mirror_u64(x) as int, 8);
}

/// Converting a `u64` twice gives it back.
pub proof fn lemma_mirror_u64_involution(x: u64)
    ensures
        mirror_u64(mirror_u64(x)) == x,
{
    let m = mirror_u64(x);
    lemma_mirror_u64_reverses(x);
    lemma_mirror_u64_reverses(m);
    assert(octets(mirror_u64(m) as int, 8) =~= octets(x as int, 8));
    reveal_with_fuel(span, 9);
    lemma_magnitude_of_octets(mirror_u64(m) as int, 8);
    lemma_magnitude_of_octets(x as int, 8);
}

/// Conversion commutes with reading a signed integer as unsigned: the
/// converted `i64` has the bits, and so the octets, of the converted `u64`
/// with the bits of `x`.
pub proof fn lemma_mirror_i64_bits(x: i64)
    ensures
        bits_i64(mirror_i64(x)) == mirror_u64(bits_i64(x)),
        octets(mirror_i64(x) as int, 8) == octets(mirror_u64(bits_i64(x)) as int, 8),
{
    lemma_bits_i64_octets(mirror_i64(x));
}

/// Conversion of an `i64` reverses its octets.
pub proof fn lemma_mirror_i64_reverses(x: i64)
    ensures
        octets(mirror_i64(x) as int, 8) == octets(x as int, 8).reverse(),
{
    lemma_mirror_i64_bits(x);
    lemma_mirror_u64_reverses(bits_i64(x));
    lemma_bits_i64_octets(x);
}

/// Converting an `i64` twice gives it back.
pub proof fn lemma_mirror_i64_involution(x: i64)
    ensures
        mirror_i64(mirror_i64(x)) == x,
{
    lemma_mirror_i64_bits(x);
    lemma_mirror_u64_involution(bits_i64(x));
}

} // verus!
