//! The conversion itself: one operation, given for the integers of one, two,
//! four and eight octets and for byte buffers.

use vstd::prelude::*;
use crate::mirror::{
    lemma_mirror_i16_reverses, lemma_mirror_i32_reverses, lemma_mirror_i64_reverses,
    lemma_mirror_i8_reverses, lemma_mirror_u16_reverses, lemma_mirror_u32_reverses,
    lemma_mirror_u64_reverses, lemma_mirror_u8_reverses, mirror_i16, mirror_i32, mirror_i64,
    mirror_i8, mirror_u16, mirror_u32, mirror_u64, mirror_u8,
};
use crate::octets::octets;

verus! {

/// A value whose byte order can be converted.
pub trait Converter {
    type OutputType;

    /// The octets of `self`, first to last.
    spec fn octets(&self) -> Seq<u8>;

    /// The octets of a converted value, first to last.
    spec fn output_octets(out: &Self::OutputType) -> Seq<u8>;

    /// Converts the byte order: the result holds the octets of `self` from
    /// last to first.
    fn convert_byte_order(&self) -> (out: Self::OutputType)
        ensures
            Self::output_octets(&out) == self.octets().reverse(),
    ;
}

impl Converter for u8 {
    type OutputType = u8;

    open spec fn octets(&self) -> Seq<u8> {
        octets(*self as int, 1)
    }

    open spec fn output_octets(out: &u8) -> Seq<u8> {
        octets(*out as int, 1)
    }

    fn convert_byte_order(&self) -> (out: u8)
        ensures
            out == mirror_u8(*self),
            out == *self,
    {
        proof {
            lemma_mirror_u8_reverses(*self);
        }
        *self
    }
}

impl Converter for i8 {
    type OutputType = i8;

    open spec fn octets(&self) -> Seq<u8> {
        octets(*self as int, 1)
    }

    open spec fn output_octets(out: &i8) -> Seq<u8> {
        octets(*out as int, 1)
    }

    fn convert_byte_order(&self) -> (out: i8)
        ensures
            out == mirror_i8(*self),
            out == *self,
    {
        let x: i8 = *self;
        let m: u8 = (x as u8).convert_byte_order();
        let out: i8 = m as i8;
        proof {
            assert(x as u8 == if x < 0 {
                (x + 0x100) as u8
            } else {
                x as u8
            }) by (bit_vector);
            assert(m as i8 == if m >= 0x80 {
                (m - 0x100) as i8
            } else {
                m as i8
            }) by (bit_vector);
            lemma_mirror_i8_reverses(x);
        }
        out
    }
}

impl Converter for u16 {
    type OutputType = u16;

    open spec fn octets(&self) -> Seq<u8> {
        octets(*self as int, 2)
    }

    open spec fn output_octets(out: &u16) -> Seq<u8> {
        octets(*out as int, 2)
    }

    fn convert_byte_order(&self) -> (out: u16)
        ensures
            out == mirror_u16(*self),
    {
        let x: u16 = *self;
        let out: u16 = (x << 8) | (x >> 8);
        proof {
            assert((x << 8) | (x >> 8) == ((x % 0x100) * 0x100 + x / 0x100) as u16) by (bit_vector);
            lemma_mirror_u16_reverses(x);
        }
        out
    }
}

impl Converter for i16 {
    type OutputType = i16;

    open spec fn octets(&self) -> Seq<u8> {
        octets(*self as int, 2)
    }

    open spec fn output_octets(out: &i16) -> Seq<u8> {
        octets(*out as int, 2)
    }

    fn convert_byte_order(&self) -> (out: i16)
        ensures
            out == mirror_i16(*self),
    {
        let x: i16 = *self;
        let m: u16 = (x as u16).convert_byte_order();
        let out: i16 = m as i16;
        proof {
            assert(x as u16 == if x < 0 {
                (x + 0x1_0000) as u16
            } else {
                x as u16
            }) by (bit_vector);
            assert(m as i16 == if m >= 0x8000 {
                (m - 0x1_0000) as i16
            } else {
                m as i16
            }) by (bit_vector);
            lemma_mirror_i16_reverses(x);
        }
        out
    }
}

impl Converter for u32 {
    type OutputType = u32;

    open spec fn octets(&self) -> Seq<u8> {
        octets(*self as int, 4)
    }

    open spec fn output_octets(out: &u32) -> Seq<u8> {
        octets(*out as int, 4)
    }

    fn convert_byte_order(&self) -> (out: u32)
        ensures
            out == mirror_u32(*self),
    {
        let x: u32 = *self;
        let out: u32 = (x << 24) | ((x & 0xff00) << 8) | ((x >> 8) & 0xff00) | (x >> 24);
        proof {
            assert((x << 24) | ((x & 0xff00) << 8) | ((x >> 8) & 0xff00) | (x >> 24) == ((x % 0x100) * 0x100_0000 + (x / 0x100 % 0x100) * 0x1_0000 + (x
                / 0x1_0000 % 0x100) * 0x100 + x / 0x100_0000) as u32) by (bit_vector);
            lemma_mirror_u32_reverses(x);
        }
        out
    }
}

impl Converter for i32 {
    type OutputType = i32;

    open spec fn octets(&self) -> Seq<u8> {
        octets(*self as int, 4)
    }

    open spec fn output_octets(out: &i32) -> Seq<u8> {
        octets(*out as int, 4)
    }

    fn convert_byte_order(&self) -> (out: i32)
        ensures
            out == mirror_i32(*self),
    {
        let x: i32 = *self;
        let m: u32 = (x as u32).convert_byte_order();
        let out: i32 = m as i32;
        proof {
            assert(x as u32 == if x < 0 {
                (x + 0x1_0000_0000) as u32
            } else {
                x as u32
            }) by (bit_vector);
            assert(m as i32 == if m >= 0x8000_0000 {
                (m - 0x1_0000_0000) as i32
            } else {
                m as i32
            }) by (bit_vector);
            lemma_mirror_i32_reverses(x);
        }
        out
    }
}

impl Converter for u64 {
    type OutputType = u64;

    open spec fn octets(&self) -> Seq<u8> {
        octets(*self as int, 8)
    }

    open spec fn output_octets(out: &u64) -> Seq<u8> {
        octets(*out as int, 8)
    }

    fn convert_byte_order(&self) -> (out: u64)
        ensures
            out == mirror_u64(*self),
    {
        let x: u64 = *self;
        let out: u64 = (x << 56) | ((x & 0xff00) << 40) | ((x & 0xff_0000) << 24) | ((x
            & 0xff00_0000) << 8) | ((x >> 8) & 0xff00_0000) | ((x >> 24) & 0xff_0000) | ((x >> 40)
            & 0xff00) | (x >> 56);
        proof {
            assert((x << 56) | ((x & 0xff00) << 40) | ((x & 0xff_0000) << 24) | ((x
                & 0xff00_0000) << 8) | ((x >> 8) & 0xff00_0000) | ((x >> 24) & 0xff_0000) | ((x >> 40)
                & 0xff00) | (x >> 56) == ((x % 0x100) * 0x100_0000_0000_0000 + (x / 0x100 % 0x100)
                * 0x1_0000_0000_0000 + (x / 0x1_0000 % 0x100) * 0x100_0000_0000 + (x / 0x100_0000
                % 0x100) * 0x1_0000_0000 + (x / 0x1_0000_0000 % 0x100) * 0x100_0000 + (x
                / 0x100_0000_0000 % 0x100) * 0x1_0000 + (x / 0x1_0000_0000_0000 % 0x100) * 0x100
                + x / 0x100_0000_0000_0000) as u64) by (bit_vector);
            lemma_mirror_u64_reverses(x);
        }
        out
    }
}

impl Converter for i64 {
    type OutputType = i64;

    open spec fn octets(&self) -> Seq<u8> {
        octets(*self as int, 8)
    }

    open spec fn output_octets(out: &i64) -> Seq<u8> {
        octets(*out as int, 8)
    }

    fn convert_byte_order(&self) -> (out: i64)
        ensures
            out == mirror_i64(*self),
    {
        let x: i64 = *self;
        let m: u64 = (x as u64).convert_byte_order();
        let out: i64 = m as i64;
        proof {
            assert(x as u64 == if x < 0 {
                (x + 0x1_0000_0000_0000_0000) as u64
            } else {
                x as u64
            }) by (bit_vector);
            assert(m as i64 == if m >= 0x8000_0000_0000_0000 {
                (m - 0x1_0000_0000_0000_0000) as i64
            } else {
                m as i64
            }) by (bit_vector);
            lemma_mirror_i64_reverses(x);
        }
        out
    }
}

impl<'a> Converter for &'a [u8] {
    type OutputType = Vec<u8>;

    open spec fn octets(&self) -> Seq<u8> {
        self@
    }

    open spec fn output_octets(out: &Vec<u8>) -> Seq<u8> {
        out@
    }

    /// The result is a buffer of its own, as long as `self`, that holds at
    /// each index the byte that `self` holds at the mirrored index.
    fn convert_byte_order(&self) -> (out: Vec<u8>)
        ensures
            out@ == self@.reverse(),
            out@.len() == self@.len(),
            forall|i: int| 0 <= i < self@.len() ==> out@[i] == self@[self@.len() - 1 - i],
            self@.len() == 0 ==> out@ == Seq::<u8>::empty(),
    {
        let n: usize = self.len();
        let mut result: Vec<u8> = vec![0u8; n];
        let mut i: usize = 0;
        while i < n
            invariant
                n == self@.len(),
                result@.len() == n,
                i <= n,
                forall|k: int| n - i <= k < n ==> result@[k] == self@[n - 1 - k],
            decreases n - i,
        {
            result.set(n - 1 - i, self[i]);
            i += 1;
        }
        assert(result@ =~= self@.reverse());
        result
    }
}

/// Converting a buffer twice gives the same bytes back.
pub proof fn lemma_buffer_involution(b: Seq<u8>)
    ensures
        b.reverse().reverse() == b,
{
    assert(b.reverse().reverse() =~= b);
}

} // verus!
