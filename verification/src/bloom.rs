//! Trusted boundary around the `bloomfilter` crate.
//!
//! The filter's bit vector, its two SipHash-1-3 keys, its hash-round count
//! and its bit modulus live inside `bloomfilter::Bloom`. The spec functions
//! below name those contents; each wrapper states, over the names, what the
//! crate's code does to them.

use crate::bits::{bit_of, bits_of_bytes, covers, set_positions};
use vstd::prelude::*;

verus! {

#[verifier::external_type_specification]
#[verifier::external_body]
#[verifier::reject_recursive_types(T)]
pub struct ExBloom<T: ?Sized>(bloomfilter::Bloom<T>);

/// The filter's bit vector, one entry per stored bit.
pub uninterp spec fn bloom_bits(b: bloomfilter::Bloom<str>) -> Seq<bool>;

/// The two 128-bit SipHash key pairs, flattened to `(k0, k1, k2, k3)`.
pub uninterp spec fn bloom_keys(b: bloomfilter::Bloom<str>) -> (u64, u64, u64, u64);

/// The number of hash rounds the filter applies per item.
pub uninterp spec fn bloom_k_num(b: bloomfilter::Bloom<str>) -> u32;

/// The modulus that folds hash values into bit indices.
pub uninterp spec fn bloom_nbits(b: bloomfilter::Bloom<str>) -> u64;

/// The set of bit indices that `bloomfilter`'s double-hashing scheme derives
/// for one item: for each round, a SipHash-1-3 value of the item under the
/// keyed hashers, folded by the bit modulus. A pure function of the keys, the
/// round count, the modulus and the item's characters.
pub uninterp spec fn bloom_positions(
    k0: u64,
    k1: u64,
    k2: u64,
    k3: u64,
    k_num: u32,
    nbits: u64,
    item: Seq<char>,
) -> Set<int>;

/// The bit indices `b` derives for `item`, read off `b`'s own keys, round
/// count and modulus.
pub open spec fn positions_of_bloom(b: bloomfilter::Bloom<str>, item: Seq<char>) -> Set<int> {
    let (k0, k1, k2, k3) = bloom_keys(b);
    bloom_positions(k0, k1, k2, k3, bloom_k_num(b), bloom_nbits(b), item)
}

/// Relies on `bloomfilter::Bloom::from_existing`: rebuilds a filter from a
/// packed bitmap (eight bits per byte, most significant first, as
/// `bit_vec::BitVec::from_bytes` reads it), a bit modulus, a round count and
/// the two SipHash key pairs, all stored verbatim.
#[verifier::external_body]
pub(crate) fn bloom_from_existing(
    bytes: &[u8],
    bitmap_bits: u64,
    k_num: u32,
    k0: u64,
    k1: u64,
    k2: u64,
    k3: u64,
) -> (b: bloomfilter::Bloom<str>)
    requires
        bytes@.len() * 8 <= usize::MAX,
    ensures
        bloom_bits(b) == bits_of_bytes(bytes@),
        bloom_nbits(b) == bitmap_bits,
        bloom_k_num(b) == k_num,
        bloom_keys(b) == (k0, k1, k2, k3),
{
    bloomfilter::Bloom::from_existing(bytes, bitmap_bits, k_num, [(k0, k1), (k2, k3)])
}

/// Relies on `bloomfilter::Bloom::set`: derives the item's bit indices, each
/// reduced modulo the bit modulus (so each lies below it), and switches
/// exactly those bits on; keys, round count and modulus are untouched.
#[verifier::external_body]
pub(crate) fn bloom_set(b: &mut bloomfilter::Bloom<str>, item: &str)
    requires
        0 < bloom_nbits(*old(b)) <= bloom_bits(*old(b)).len(),
    ensures
        bloom_bits(*final(b)) == set_positions(
            bloom_bits(*old(b)),
            bloom_positions(
                bloom_keys(*old(b)).0,
                bloom_keys(*old(b)).1,
                bloom_keys(*old(b)).2,
                bloom_keys(*old(b)).3,
                bloom_k_num(*old(b)),
                bloom_nbits(*old(b)),
                item@,
            ),
        ),
        bloom_keys(*final(b)) == bloom_keys(*old(b)),
        bloom_k_num(*final(b)) == bloom_k_num(*old(b)),
        bloom_nbits(*final(b)) == bloom_nbits(*old(b)),
        forall|p: int|
            positions_of_bloom(*final(b), item@).contains(p) ==> 0 <= p < bloom_nbits(*final(b)),
{
    b.set(item)
}

/// Relies on `bloomfilter::Bloom::check`: derives the same bit indices as
/// `set` (each below the bit modulus) and reports whether every one of them
/// is switched on.
#[verifier::external_body]
pub(crate) fn bloom_check(b: &bloomfilter::Bloom<str>, item: &str) -> (r: bool)
    requires
        0 < bloom_nbits(*b) <= bloom_bits(*b).len(),
    ensures
        r == covers(bloom_bits(*b), positions_of_bloom(*b, item@)),
{
    b.check(item)
}

/// Relies on `bloomfilter::Bloom::bitmap`: packs the bit vector into bytes,
/// eight bits per byte with the most significant bit first, padding the last
/// byte with zeros (as `bit_vec::BitVec::to_bytes` writes it).
#[verifier::external_body]
pub(crate) fn bloom_bitmap(b: &bloomfilter::Bloom<str>) -> (r: Vec<u8>)
    ensures
        r@.len() == (bloom_bits(*b).len() + 7) / 8,
        forall|i: int| 0 <= i < bloom_bits(*b).len() ==> bit_of(r@, i) == bloom_bits(*b)[i],
        forall|i: int| bloom_bits(*b).len() <= i < r@.len() * 8 ==> bit_of(r@, i) == false,
{
    b.bitmap()
}

} // verus!
