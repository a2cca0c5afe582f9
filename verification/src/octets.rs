//! The octet sequence of an integer, which is the model that the conversions
//! are stated over.

use vstd::prelude::*;

verus! {

/// The `w` low-order octets of `v`, most significant first. A negative `v`
/// yields the octets of its two's complement pattern: division and remainder
/// round towards negative infinity here.
pub open spec fn octets(v: int, w: nat) -> Seq<u8>
    decreases w,
{
    if w == 0 {
        Seq::empty()
    } else {
        octets(v / 256, (w - 1) as nat).push((v % 256) as u8)
    }
}

/// The non-negative number whose octets, most significant first, are `s`.
pub open spec fn magnitude(s: Seq<u8>) -> int
    decreases s.len(),
{
    if s.len() == 0 {
        0
    } else {
        magnitude(s.drop_last()) * 256 + s.last()
    }
}

/// `256` to the power `w`: the number of patterns that `w` octets can hold.
pub open spec fn span(w: nat) -> int
    decreases w,
{
    if w == 0 {
        1
    } else {
        256 * span((w - 1) as nat)
    }
}

/// `w` octets hold a number only up to a multiple of the span of `w`: adding the
/// span changes none of them.
pub proof fn lemma_octets_wrap(v: int, w: nat)
    ensures
        octets(v + span(w), w) == octets(v, w),
    decreases w,
{
    if w > 0 {
        let s = span((w - 1) as nat);
        assert((v + 256 * s) / 256 == v / 256 + s);
        assert((v + 256 * s) % 256 == v % 256);
        lemma_octets_wrap(v / 256, (w - 1) as nat);
    }
}

/// Reading back the octets of `v` gives `v` again, as far as `w` octets hold it.
pub proof fn lemma_magnitude_of_octets(v: int, w: nat)
    requires
        0 <= v < span(w),
    ensures
        magnitude(octets(v, w)) == v,
    decreases w,
{
    if w > 0 {
        let rest = octets(v / 256, (w - 1) as nat);
        lemma_magnitude_of_octets(v / 256, (w - 1) as nat);
        assert(octets(v, w).drop_last() =~= rest);
    }
}

} // verus!
