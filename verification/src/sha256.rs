//! Streaming SHA-256 hashing.
//!
//! One-shot digesting is pure and stateless; the streaming accumulator
//! takes any number of updates, each appending to the logical input, and
//! is consumed by finalize, which yields the digest of everything fed.
//! Splitting an input across updates in any way thus gives exactly the
//! one-shot digest of the whole.

use vstd::prelude::*;

use sha2::Digest;

use crate::HASH_SIZE;

verus! {

/// The SHA-256 digest of the data.
pub uninterp spec fn sha256_of(data: Seq<u8>) -> Seq<u8>;

/// The bytes fed to a streaming accumulator so far.
pub uninterp spec fn accumulated(hasher: SoftwareSha256) -> Seq<u8>;

/// A streaming SHA-256 accumulator, holding the sha2 crate's engine.
/// Finalizing consumes it, so a finalized accumulator cannot be reused.
#[verifier::external_body]
pub struct SoftwareSha256 {
    hasher: sha2::Sha256,
}

impl SoftwareSha256 {
    /// Relies on sha2::Sha256::digest: the one-shot SHA-256 digest of the
    /// data, the same value that an accumulator fed the same bytes yields.
    #[verifier::external_body]
    pub fn digest(data: &[u8]) -> (r: [u8; HASH_SIZE])
        ensures
            r@ == sha256_of(data@),
    {
        sha2::Sha256::digest(data).into()
    }

    /// Relies on sha2::Sha256::new: a fresh accumulator that has seen no
    /// input.
    #[verifier::external_body]
    pub fn new() -> (r: Self)
        ensures
            accumulated(r) == Seq::<u8>::empty(),
    {
        Self { hasher: sha2::Sha256::new() }
    }

    /// Relies on sha2::Sha256::update: appends the data to the logical
    /// input; nothing else about the accumulator changes.
    #[verifier::external_body]
    pub fn update(&mut self, data: &[u8])
        ensures
            accumulated(*final(self)) == accumulated(*old(self)) + data@,
    {
        self.hasher.update(data);
    }

    /// Relies on sha2::Sha256::finalize: consumes the accumulator and
    /// yields the SHA-256 digest of everything fed to it.
    #[verifier::external_body]
    pub fn finalize(self) -> (r: [u8; HASH_SIZE])
        ensures
            r@ == sha256_of(accumulated(self)),
    {
        self.hasher.finalize().into()
    }
}

} // verus!
