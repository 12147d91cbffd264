//! HKDF-SHA256 key derivation with an all-zero salt.
//!
//! One fixed construction: extract-then-expand with the salt pinned to a
//! hash-width string of zero bytes, which the HKDF specification makes
//! equivalent to providing no salt, and the output pinned to the hash
//! width.

use vstd::prelude::*;

use crate::HASH_SIZE;

verus! {

/// The HKDF-SHA256 output for the keying material and info string, with a
/// 32-byte zero salt and 32 bytes of output.
pub uninterp spec fn hkdf256_empty_salt(ikm: Seq<u8>, info: Seq<u8>) -> Seq<u8>;

/// The HKDF-SHA256 engine.
pub struct SoftwareHkdf256;

impl SoftwareHkdf256 {
    /// Relies on hkdf::Hkdf over sha2::Sha256, salted with zero bytes of
    /// the hash width: the standard extract-then-expand output. Expanding
    /// to the hash width never exceeds the construction's limit, so the
    /// call cannot fail.
    #[verifier::external_body]
    pub fn hkdf_empty_salt_256(ikm: &[u8], info: &[u8]) -> (r: [u8; HASH_SIZE])
        ensures
            r@ == hkdf256_empty_salt(ikm@, info@),
    {
        let hk = hkdf::Hkdf::<sha2::Sha256>::new(Some(&[0; HASH_SIZE]), ikm);
        let mut okm = [0u8; HASH_SIZE];
        hk.expand(info, &mut okm).unwrap();
        okm
    }
}

} // verus!
