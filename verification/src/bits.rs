//! The mathematical model of a bit-packed bitmap: how a sequence of bytes
//! encodes a sequence of bits (most significant bit of each byte first), and
//! what setting a collection of bit positions does to a bit sequence.

use vstd::prelude::*;

verus! {

/// Bit `j` of byte `b`, counting the most significant bit as bit 0.
pub open spec fn byte_bit(b: u8, j: int) -> bool {
    (b as nat / pow2_of(7 - j)) % 2 == 1
}

/// `2 ^ e` for the small exponents bit packing needs.
pub open spec fn pow2_of(e: int) -> nat
    decreases e,
{
    if e <= 0 {
        1
    } else {
        2 * pow2_of(e - 1)
    }
}

/// A power of two is positive.
pub proof fn lemma_pow2_of_pos(e: int)
    ensures
        pow2_of(e) >= 1,
    decreases e,
{
    if e > 0 {
        lemma_pow2_of_pos(e - 1);
    }
}

/// The bit at overall position `i` of a packed byte sequence.
pub open spec fn bit_of(bytes: Seq<u8>, i: int) -> bool {
    byte_bit(bytes[i / 8], i % 8)
}

/// The whole bit sequence a byte sequence encodes: eight bits per byte,
/// most significant bit first.
pub open spec fn bits_of_bytes(bytes: Seq<u8>) -> Seq<bool> {
    Seq::new(bytes.len() * 8, |i: int| bit_of(bytes, i))
}

/// The bit sequence after switching on every position in `ps`; positions
/// outside the sequence are ignored and no bit is ever cleared.
pub open spec fn set_positions(bits: Seq<bool>, ps: Set<int>) -> Seq<bool> {
    Seq::new(bits.len(), |i: int| bits[i] || ps.contains(i))
}

/// Every position in `ps` lies inside `bits` and carries a set bit.
pub open spec fn covers(bits: Seq<bool>, ps: Set<int>) -> bool {
    forall|p: int| ps.contains(p) ==> 0 <= p < bits.len() && bits[p]
}

/// No false negatives, bit level: switching on a collection of in-range
/// positions leaves every one of those positions covered.
pub proof fn lemma_set_positions_covers(bits: Seq<bool>, ps: Set<int>)
    requires
        forall|p: int| ps.contains(p) ==> 0 <= p < bits.len(),
    ensures
        covers(set_positions(bits, ps), ps),
{
}

/// Bits only ever turn on: positions covered before an update by
/// `set_positions` stay covered after it.
pub proof fn lemma_set_positions_preserves_covers(bits: Seq<bool>, ps: Set<int>, qs: Set<int>)
    requires
        covers(bits, qs),
    ensures
        covers(set_positions(bits, ps), qs),
{
}

/// A zeroed byte vector of the requested length.
pub fn zeroed_bytes(len: usize) -> (r: Vec<u8>)
    ensures
        r@.len() == len,
        forall|i: int| 0 <= i < len ==> r@[i] == 0u8,
{
    let mut r: Vec<u8> = Vec::new();
    let mut i: usize = 0;
    while i < len
        invariant
            i <= len,
            r@.len() == i,
            forall|j: int| 0 <= j < i ==> r@[j] == 0u8,
        decreases len - i,
    {
        r.push(0u8);
        i = i + 1;
    }
    r
}

} // verus!
