//! Builds a Bloom filter from a sequence of text items and serializes it as
//! a raw bit-packed bitmap plus a self-describing, integrity-checked JSON
//! metadata record, sufficient to reconstruct an equivalent filter later.

pub mod bits;
pub mod bloom;
pub mod digest;
pub mod filter;
pub mod metadata;
pub mod textenc;
