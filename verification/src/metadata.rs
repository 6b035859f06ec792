//! The sidecar metadata descriptor: the content digest of the persisted
//! bitmap, the filter's sizing, and its hash seeds, rendered as the fixed
//! JSON document a later reconstruction reads.

use crate::digest::{sha256, sha256_of};
use crate::textenc::{append_decimal, dec_chars, hex_chars, hex_encode};
use vstd::prelude::*;
use vstd::string::StringExecFns;

verus! {

/// Everything a later query tool needs to rebuild the filter, plus the
/// SHA-256 digest of the bitmap bytes that guards against corruption.
/// Derived once from a frozen filter; never mutated.
pub struct MetadataRecord {
    pub content_digest: Vec<u8>,
    pub bitmap_bits: u64,
    pub hash_function_count: u32,
    pub seeds: ((u64, u64), (u64, u64)),
}

/// The exact JSON document a metadata record is written as: fixed field
/// names in fixed order, the digest in lowercase hex, each seed word as a
/// decimal string so no textual reader loses 64-bit precision.
pub open spec fn json_chars(
    digest: Seq<u8>,
    bitmap_bits: u64,
    hash_function_count: u32,
    seeds: ((u64, u64), (u64, u64)),
) -> Seq<char> {
    "{\"bitmap_bits\":"@ + dec_chars(bitmap_bits as nat) + ",\"k_num\":"@ + dec_chars(
        hash_function_count as nat,
    ) + ",\"sha256sum\":\""@ + hex_chars(digest) + "\",\"sip_keys\":[[\""@ + dec_chars(
        seeds.0.0 as nat,
    ) + "\",\""@ + dec_chars(seeds.0.1 as nat) + "\"],[\""@ + dec_chars(seeds.1.0 as nat)
        + "\",\""@ + dec_chars(seeds.1.1 as nat) + "\"]]}"@
}

impl MetadataRecord {
    /// Derives the record for a bitmap's byte image: its SHA-256 digest
    /// together with the sizing and seeds the caller passes through.
    pub fn for_bitmap(
        bytes: &Vec<u8>,
        bitmap_bits: u64,
        hash_function_count: u32,
        seeds: ((u64, u64), (u64, u64)),
    ) -> (r: MetadataRecord)
        ensures
            r.content_digest@ == sha256_of(bytes@),
            r.content_digest@.len() == 32,
            r.bitmap_bits == bitmap_bits,
            r.hash_function_count == hash_function_count,
            r.seeds == seeds,
    {
        MetadataRecord {
            content_digest: sha256(bytes),
            bitmap_bits,
            hash_function_count,
            seeds,
        }
    }

    /// Whether this record's digest is the SHA-256 digest of `bytes`: the
    /// integrity check a reader runs before trusting a bitmap file.
    pub fn matches_bitmap(&self, bytes: &Vec<u8>) -> (r: bool)
        ensures
            r == (self.content_digest@ == sha256_of(bytes@)),
    {
        let d = sha256(bytes);
        if d.len() != self.content_digest.len() {
            return false;
        }
        let mut i: usize = 0;
        while i < d.len()
            invariant
                i <= d@.len(),
                d@ == sha256_of(bytes@),
                d@.len() == self.content_digest@.len(),
                forall|j: int| 0 <= j < i ==> d@[j] == self.content_digest@[j],
            decreases d@.len() - i,
        {
            if d[i] != self.content_digest[i] {
                return false;
            }
            i = i + 1;
        }
        proof {
            assert(d@ =~= self.content_digest@);
        }
        true
    }

    /// Renders the record as its JSON document, exactly the characters of
    /// `json_chars` over the record's fields.
    pub fn to_json(&self) -> (r: String)
        ensures
            r@ == json_chars(
                self.content_digest@,
                self.bitmap_bits,
                self.hash_function_count,
                self.seeds,
            ),
    {
        let mut out = String::new();
        out.append("{\"bitmap_bits\":");
        append_decimal(&mut out, self.bitmap_bits);
        out.append(",\"k_num\":");
        append_decimal(&mut out, self.hash_function_count as u64);
        out.append(",\"sha256sum\":\"");
        let hx = hex_encode(&self.content_digest);
        out.append(hx.as_str());
        out.append("\",\"sip_keys\":[[\"");
        append_decimal(&mut out, self.seeds.0.0);
        out.append("\",\"");
        append_decimal(&mut out, self.seeds.0.1);
        out.append("\"],[\"");
        append_decimal(&mut out, self.seeds.1.0);
        out.append("\",\"");
        append_decimal(&mut out, self.seeds.1.1);
        out.append("\"]]}");
        proof {
            assert(out@ =~= json_chars(
                self.content_digest@,
                self.bitmap_bits,
                self.hash_function_count,
                self.seeds,
            ));
        }
        out
    }
}

} // verus!
