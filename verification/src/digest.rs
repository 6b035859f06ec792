//! Trusted boundary around `ring`: the SHA-256 content digest that guards
//! the persisted bitmap, and the system entropy that seeds the keyed hashes.

use vstd::prelude::*;

verus! {

/// The SHA-256 digest of a byte string. Its value is far too long to state;
/// the name records only that it is a function of the input bytes alone.
pub uninterp spec fn sha256_of(bytes: Seq<u8>) -> Seq<u8>;

/// Relies on `ring::digest::digest` with `ring::digest::SHA256`: returns the
/// 32-byte SHA-256 digest of the input, a function of the input alone.
#[verifier::external_body]
pub(crate) fn sha256(bytes: &Vec<u8>) -> (r: Vec<u8>)
    ensures
        r@ == sha256_of(bytes@),
        r@.len() == 32,
{
    ring::digest::digest(&ring::digest::SHA256, bytes).as_ref().to_vec()
}

/// Relies on `ring::rand::SystemRandom::fill`: draws 32 bytes from the
/// system's secure entropy source, handed back as four 64-bit seed words, or
/// `None` when the source fails. Nothing can be promised of the values.
#[verifier::external_body]
pub(crate) fn random_seed_words() -> (r: Option<(u64, u64, u64, u64)>) {
    let rng = ring::rand::SystemRandom::new();
    let mut buf = [0u8; 32];
    match ring::rand::SecureRandom::fill(&rng, &mut buf) {
        Err(_) => None,
        Ok(()) => {
            let w0 = u64::from_le_bytes(buf[0..8].try_into().unwrap());
            let w1 = u64::from_le_bytes(buf[8..16].try_into().unwrap());
            let w2 = u64::from_le_bytes(buf[16..24].try_into().unwrap());
            let w3 = u64::from_le_bytes(buf[24..32].try_into().unwrap());
            Some((w0, w1, w2, w3))
        },
    }
}

} // verus!
