//! The Bloom filter itself: creation from sizing parameters and seeds,
//! population by whitespace-trimmed items, membership testing, and
//! reconstruction from a persisted bitmap.

use crate::bits::{
    bit_of, bits_of_bytes, covers, lemma_pow2_of_pos, lemma_set_positions_covers,
    lemma_set_positions_preserves_covers, pow2_of, set_positions, zeroed_bytes,
};
use crate::bloom::{
    bloom_bitmap, bloom_bits, bloom_check, bloom_from_existing, bloom_k_num, bloom_keys,
    bloom_nbits, bloom_positions, bloom_set, positions_of_bloom,
};
use crate::digest::{random_seed_words, sha256_of};
use crate::metadata::MetadataRecord;
use crate::textenc::{trim_str, trimmed};
use vstd::prelude::*;

verus! {

/// Sizing parameters of a Bloom filter: how many bits the bitmap has and how
/// many hash rounds each item goes through.
pub struct FilterParameters {
    pub bitmap_bits: u64,
    pub hash_function_count: u32,
}

impl FilterParameters {
    /// A meaningful filter has at least one bit and at least one hash round,
    /// and its bitmap, rounded up to whole bytes, must be addressable.
    pub open spec fn wf(&self) -> bool {
        &&& 0 < self.bitmap_bits
        &&& ((self.bitmap_bits + 7) / 8) * 8 <= usize::MAX
        &&& self.hash_function_count >= 1
    }
}

/// The mathematical content of a filter: its bit sequence, its bit modulus,
/// its hash-round count and its two 128-bit seed pairs.
pub ghost struct FilterModel {
    pub bits: Seq<bool>,
    pub bitmap_bits: u64,
    pub hash_function_count: u32,
    pub seeds: ((u64, u64), (u64, u64)),
}

/// The bit indices a filter with model `m` derives for the (already
/// trimmed) character sequence `s`.
pub open spec fn raw_positions(m: FilterModel, s: Seq<char>) -> Set<int> {
    bloom_positions(
        m.seeds.0.0,
        m.seeds.0.1,
        m.seeds.1.0,
        m.seeds.1.1,
        m.hash_function_count,
        m.bitmap_bits,
        s,
    )
}

/// The bit indices an `insert` of `s` switches on: the indices derived for
/// `s` without its leading and trailing whitespace.
pub open spec fn item_positions(m: FilterModel, s: Seq<char>) -> Set<int> {
    raw_positions(m, trimmed(s))
}

/// A filter reports an item present exactly when its bitmap covers the
/// item's trimmed positions.
pub open spec fn reports_present(m: FilterModel, s: Seq<char>) -> bool {
    covers(m.bits, item_positions(m, s))
}

/// An insert-only Bloom filter over strings. The bit vector, the keyed
/// hashing and the double-hashing scheme live in `bloomfilter::Bloom`; the
/// sizing parameters and seeds are mirrored here so contracts can speak of
/// them.
pub struct Filter {
    bloom: bloomfilter::Bloom<str>,
    bitmap_bits: u64,
    hash_function_count: u32,
    seeds: ((u64, u64), (u64, u64)),
}

impl View for Filter {
    type V = FilterModel;

    closed spec fn view(&self) -> FilterModel {
        FilterModel {
            bits: bloom_bits(self.bloom),
            bitmap_bits: self.bitmap_bits,
            hash_function_count: self.hash_function_count,
            seeds: self.seeds,
        }
    }
}

impl Filter {
    /// The filter's invariant: the mirrored fields agree with the inner
    /// filter, the bitmap holds whole bytes covering every addressable bit,
    /// and the sizing is meaningful.
    pub closed spec fn inv(&self) -> bool {
        &&& self.bitmap_bits == bloom_nbits(self.bloom)
        &&& self.hash_function_count == bloom_k_num(self.bloom)
        &&& self.seeds == (
            (bloom_keys(self.bloom).0, bloom_keys(self.bloom).1),
            (bloom_keys(self.bloom).2, bloom_keys(self.bloom).3),
        )
        &&& 0 < self.bitmap_bits
        &&& self.hash_function_count >= 1
        &&& bloom_bits(self.bloom).len() == ((self.bitmap_bits + 7) / 8) * 8
        &&& ((self.bitmap_bits + 7) / 8) * 8 <= usize::MAX
    }

    /// The sizing parameters this filter was built with.
    pub fn parameters(&self) -> (r: FilterParameters)
        requires
            self.inv(),
        ensures
            r.bitmap_bits == self@.bitmap_bits,
            r.hash_function_count == self@.hash_function_count,
            r.wf(),
    {
        FilterParameters {
            bitmap_bits: self.bitmap_bits,
            hash_function_count: self.hash_function_count,
        }
    }

    /// The two seed pairs of the filter's keyed hash functions.
    pub fn seed_pairs(&self) -> (r: ((u64, u64), (u64, u64)))
        ensures
            r == self@.seeds,
    {
        self.seeds
    }

    /// Creates an empty filter (every bit zero) with the given sizing and
    /// the given seed pairs. Deterministic; tests and reconstruction supply
    /// fixed seeds, `new` supplies fresh entropy.
    pub fn new_with_seeds(params: &FilterParameters, seeds: ((u64, u64), (u64, u64))) -> (r:
        Filter)
        requires
            params.wf(),
        ensures
            r.inv(),
            r@.bitmap_bits == params.bitmap_bits,
            r@.hash_function_count == params.hash_function_count,
            r@.seeds == seeds,
            r@.bits.len() == ((params.bitmap_bits + 7) / 8) * 8,
            forall|i: int| 0 <= i < r@.bits.len() ==> r@.bits[i] == false,
    {
        let byte_len: usize = (((params.bitmap_bits + 7) / 8)) as usize;
        let zeros = zeroed_bytes(byte_len);
        let r = Filter {
            bloom: bloom_from_existing(
                zeros.as_slice(),
                params.bitmap_bits,
                params.hash_function_count,
                seeds.0.0,
                seeds.0.1,
                seeds.1.0,
                seeds.1.1,
            ),
            bitmap_bits: params.bitmap_bits,
            hash_function_count: params.hash_function_count,
            seeds,
        };
        proof {
            assert(r@.bits == bits_of_bytes(zeros@));
            assert forall|i: int| 0 <= i < r@.bits.len() implies r@.bits[i] == false by {
                assert(0 <= i / 8 < zeros@.len());
                assert(zeros@[i / 8] == 0u8);
                assert(r@.bits[i] == bit_of(zeros@, i));
                lemma_pow2_of_pos(7 - (i % 8));
                assert(0nat / pow2_of(7 - (i % 8)) == 0);
            }
        }
        r
    }

    /// Creates an empty filter with the given sizing and two fresh random
    /// seed pairs from the system entropy source; `None` exactly when that
    /// source failed, in which case construction is abandoned.
    pub fn new(params: &FilterParameters) -> (r: Option<Filter>)
        requires
            params.wf(),
        ensures
            r matches Some(f) ==> ({
                &&& f.inv()
                &&& f@.bitmap_bits == params.bitmap_bits
                &&& f@.hash_function_count == params.hash_function_count
                &&& forall|i: int| 0 <= i < f@.bits.len() ==> f@.bits[i] == false
            }),
    {
        match random_seed_words() {
            None => None,
            Some((w0, w1, w2, w3)) => Some(
                Self::new_with_seeds(params, ((w0, w1), (w2, w3))),
            ),
        }
    }

    /// Reconstructs a filter from a persisted bitmap and the metadata that
    /// described it: the byte-packed bitmap, the bit modulus, the hash-round
    /// count and the seed pairs, all taken verbatim.
    pub fn from_parts(
        bitmap: &Vec<u8>,
        bitmap_bits: u64,
        hash_function_count: u32,
        seeds: ((u64, u64), (u64, u64)),
    ) -> (r: Filter)
        requires
            0 < bitmap_bits,
            hash_function_count >= 1,
            bitmap@.len() == (bitmap_bits + 7) / 8,
            bitmap@.len() * 8 <= usize::MAX,
        ensures
            r.inv(),
            r@.bitmap_bits == bitmap_bits,
            r@.hash_function_count == hash_function_count,
            r@.seeds == seeds,
            r@.bits == bits_of_bytes(bitmap@),
    {
        Filter {
            bloom: bloom_from_existing(
                bitmap.as_slice(),
                bitmap_bits,
                hash_function_count,
                seeds.0.0,
                seeds.0.1,
                seeds.1.0,
                seeds.1.1,
            ),
            bitmap_bits,
            hash_function_count,
            seeds,
        }
    }

    /// Records an item: trims its leading and trailing whitespace, derives
    /// the trimmed item's bit indices and switches exactly those bits on.
    /// Purely additive; never fails, for any string.
    pub fn insert(&mut self, item: &str)
        requires
            old(self).inv(),
        ensures
            final(self).inv(),
            final(self)@.bitmap_bits == old(self)@.bitmap_bits,
            final(self)@.hash_function_count == old(self)@.hash_function_count,
            final(self)@.seeds == old(self)@.seeds,
            final(self)@.bits == set_positions(
                old(self)@.bits,
                item_positions(old(self)@, item@),
            ),
            forall|p: int|
                item_positions(old(self)@, item@).contains(p) ==> 0 <= p
                    < old(self)@.bitmap_bits,
    {
        let t = trim_str(item);
        proof {
            assert(positions_of_bloom(self.bloom, t@) == item_positions(self@, item@));
        }
        bloom_set(&mut self.bloom, t.as_str());
        proof {
            assert(positions_of_bloom(self.bloom, t@) == item_positions(old(self)@, item@));
            assert forall|p: int|
                item_positions(old(self)@, item@).contains(p) implies 0 <= p
                < old(self)@.bitmap_bits by {
                assert(positions_of_bloom(self.bloom, t@).contains(p));
            }
        }
    }

    /// Tests membership: reports whether every bit index derived for the
    /// trimmed item is switched on. Items that were inserted always report
    /// present; items that were not may still report present (a false
    /// positive), never the reverse.
    pub fn contains(&self, item: &str) -> (r: bool)
        requires
            self.inv(),
        ensures
            r == reports_present(self@, item@),
    {
        let t = trim_str(item);
        proof {
            assert(positions_of_bloom(self.bloom, t@) == item_positions(self@, item@));
        }
        bloom_check(&self.bloom, t.as_str())
    }

    /// Records every item of `items` in order. Afterwards the filter reports
    /// every one of them present, and every bit that was set before is still
    /// set.
    pub fn populate(&mut self, items: &Vec<String>)
        requires
            old(self).inv(),
        ensures
            final(self).inv(),
            final(self)@.bitmap_bits == old(self)@.bitmap_bits,
            final(self)@.hash_function_count == old(self)@.hash_function_count,
            final(self)@.seeds == old(self)@.seeds,
            final(self)@.bits.len() == old(self)@.bits.len(),
            forall|p: int|
                0 <= p < old(self)@.bits.len() && old(self)@.bits[p] ==> final(self)@.bits[p],
            forall|i: int|
                0 <= i < items@.len() ==> reports_present(final(self)@, items@[i]@),
    {
        let ghost m0 = self@;
        let mut idx: usize = 0;
        while idx < items.len()
            invariant
                self.inv(),
                self@.bitmap_bits == m0.bitmap_bits,
                self@.hash_function_count == m0.hash_function_count,
                self@.seeds == m0.seeds,
                self@.bits.len() == m0.bits.len(),
                idx <= items@.len(),
                forall|p: int| 0 <= p < m0.bits.len() && m0.bits[p] ==> self@.bits[p],
                forall|j: int| 0 <= j < idx ==> reports_present(self@, items@[j]@),
            decreases items@.len() - idx,
        {
            let ghost pre = self@;
            self.insert(items[idx].as_str());
            proof {
                let ps = item_positions(pre, items@[idx as int]@);
                lemma_set_positions_covers(pre.bits, ps);
                assert forall|j: int| 0 <= j < idx + 1 implies reports_present(
                    self@,
                    items@[j]@,
                ) by {
                    if j < idx {
                        lemma_set_positions_preserves_covers(
                            pre.bits,
                            ps,
                            item_positions(pre, items@[j]@),
                        );
                    }
                }
            }
            idx = idx + 1;
        }
    }

    /// Freezes the filter and serializes it: the bitmap packed into bytes
    /// (eight bits per byte, most significant first, zero padding only in
    /// the final byte), and the metadata record whose digest is the SHA-256
    /// digest of exactly those bytes and whose sizing and seeds are this
    /// filter's, verbatim. The returned pair is everything `from_parts`
    /// needs to rebuild an equivalent filter.
    pub fn freeze_and_serialize(&self) -> (r: (Vec<u8>, MetadataRecord))
        requires
            self.inv(),
        ensures
            r.0@.len() == (self@.bitmap_bits + 7) / 8,
            r.0@.len() * 8 <= usize::MAX,
            forall|i: int| 0 <= i < self@.bits.len() ==> bit_of(r.0@, i) == self@.bits[i],
            bits_of_bytes(r.0@) == self@.bits,
            r.1.content_digest@ == sha256_of(r.0@),
            r.1.bitmap_bits == self@.bitmap_bits,
            r.1.hash_function_count == self@.hash_function_count,
            r.1.seeds == self@.seeds,
            0 < r.1.bitmap_bits,
            r.1.hash_function_count >= 1,
    {
        let bytes = bloom_bitmap(&self.bloom);
        proof {
            assert(bits_of_bytes(bytes@) =~= bloom_bits(self.bloom));
        }
        let md = MetadataRecord::for_bitmap(
            &bytes,
            self.bitmap_bits,
            self.hash_function_count,
            self.seeds,
        );
        (bytes, md)
    }
}

/// Builds a filter over a whole corpus: creates an empty filter of the given
/// sizing with fresh random seeds and records every item. `None` exactly
/// when the entropy source failed. Afterwards the filter reports every
/// corpus item present.
pub fn build(params: &FilterParameters, items: &Vec<String>) -> (r: Option<Filter>)
    requires
        params.wf(),
    ensures
        r matches Some(f) ==> ({
            &&& f.inv()
            &&& f@.bitmap_bits == params.bitmap_bits
            &&& f@.hash_function_count == params.hash_function_count
            &&& forall|i: int| 0 <= i < items@.len() ==> reports_present(f@, items@[i]@)
        }),
{
    match Filter::new(params) {
        None => None,
        Some(mut f) => {
            f.populate(items);
            Some(f)
        },
    }
}

/// Round-trip reconstructability, stated as a law: two filters that agree on
/// their bits, their bit modulus, their hash-round count and their seeds
/// report exactly the same items present. In particular a filter rebuilt
/// from a persisted bitmap and its metadata answers as the original did.
pub proof fn lemma_round_trip(f: FilterModel, g: FilterModel, item: Seq<char>)
    requires
        g.bits == f.bits,
        g.bitmap_bits == f.bitmap_bits,
        g.hash_function_count == f.hash_function_count,
        g.seeds == f.seeds,
    ensures
        reports_present(g, item) == reports_present(f, item),
{
}

/// Whitespace normalization, stated as a law: two strings whose trimmed
/// forms agree are hashed to the same bit indices, so inserting one makes
/// the other report present as well.
pub proof fn lemma_whitespace_normalization(m: FilterModel, a: Seq<char>, b: Seq<char>)
    ensures
        trimmed(a) == trimmed(b) ==> item_positions(m, a) == item_positions(m, b),
{
}

} // verus!
