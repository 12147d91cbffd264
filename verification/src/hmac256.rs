//! HMAC-SHA256 tags, full and left-truncated.
//!
//! Tag generation comes from the hmac crate; both verifications are the
//! library's own code: they recompute the tag and compare it, or its
//! leading bytes, with a comparison that examines every byte whatever the
//! position of a first mismatch, so the path taken leaks nothing about
//! where a candidate goes wrong.

use vstd::prelude::*;

use hmac::Mac;

use crate::{HASH_SIZE, HMAC_KEY_SIZE, TRUNCATED_HMAC_SIZE};
use crate::bytes::constant_time_eq;
use vstd::slice::slice_subrange;

verus! {

/// The HMAC-SHA256 tag of the data under the key.
pub uninterp spec fn hmac256_of(key: Seq<u8>, data: Seq<u8>) -> Seq<u8>;

/// The HMAC-SHA256 engine.
pub struct SoftwareHmac256;

impl SoftwareHmac256 {
    /// Relies on hmac::Hmac over sha2::Sha256: the HMAC-SHA256 tag of the
    /// data under the fixed-width key. A key of the hash width is always
    /// accepted by the engine.
    #[verifier::external_body]
    pub fn mac(key: &[u8; HMAC_KEY_SIZE], data: &[u8]) -> (r: [u8; HASH_SIZE])
        ensures
            r@ == hmac256_of(key@, data@),
    {
        let mut engine = hmac::Hmac::<sha2::Sha256>::new_from_slice(key).unwrap();
        engine.update(data);
        engine.finalize().into_bytes().into()
    }

    /// Decides whether the candidate is the tag of the data under the
    /// key. The comparison takes no early exit on a mismatch.
    pub fn verify(key: &[u8; HMAC_KEY_SIZE], data: &[u8], mac: &[u8; HASH_SIZE]) -> (r: bool)
        ensures
            r == (mac@ == hmac256_of(key@, data@)),
    {
        let computed = Self::mac(key, data);
        constant_time_eq(computed.as_slice(), mac.as_slice())
    }

    /// Decides whether the candidate is the left-truncated tag of the
    /// data under the key: the tag's leading bytes, for protocol fields
    /// too narrow for the full width. The comparison takes no early exit
    /// on a mismatch.
    pub fn verify_truncated_left(
        key: &[u8; HMAC_KEY_SIZE],
        data: &[u8],
        mac: &[u8; TRUNCATED_HMAC_SIZE],
    ) -> (r: bool)
        ensures
            r == (mac@ == hmac256_of(key@, data@).take(TRUNCATED_HMAC_SIZE as int)),
    {
        let computed = Self::mac(key, data);
        let prefix = slice_subrange(computed.as_slice(), 0, TRUNCATED_HMAC_SIZE);
        proof {
            assert(prefix@ =~= hmac256_of(key@, data@).take(TRUNCATED_HMAC_SIZE as int));
        }
        constant_time_eq(prefix, mac.as_slice())
    }
}

} // verus!
