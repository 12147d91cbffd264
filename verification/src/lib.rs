//! Software cryptography provider for an authenticator device.
//!
//! Five primitive families are exposed: elliptic-curve key agreement (ECDH)
//! and signing (ECDSA) over P-256, streaming SHA-256 hashing, HMAC-SHA256
//! authentication with left-truncated tags, and HKDF-SHA256 key derivation
//! with an all-zero salt. The curve and hash arithmetic itself comes from
//! the `p256`, `sha2`, `hmac` and `hkdf` crates; this library owns the
//! boundary: fixed-width byte encodings, point and scalar validation,
//! DER conversion, and truncated-MAC comparison.

use vstd::prelude::*;

pub mod bytes;
pub mod curve;
pub mod der;
pub mod ecdh;
pub mod ecdsa;
pub mod hkdf256;
pub mod hmac256;
pub mod sha256;

verus! {

/// Width in bytes of a P-256 field element: one coordinate or one scalar.
pub const EC_FIELD_SIZE: usize = 32;

/// Width in bytes of a raw ECDSA signature: the scalars r and s concatenated.
pub const EC_SIGNATURE_SIZE: usize = 64;

/// Width in bytes of a SHA-256 digest, and hence of an HMAC-SHA256 tag and
/// of the HKDF output.
pub const HASH_SIZE: usize = 32;

/// Width in bytes of an HMAC key.
pub const HMAC_KEY_SIZE: usize = 32;

/// Width in bytes of a left-truncated HMAC tag, for constrained protocol
/// fields.
pub const TRUNCATED_HMAC_SIZE: usize = 16;

/// A capability bundle: one implementation of every primitive family, so
/// that callers can depend on a single abstraction.
pub trait Crypto {
    type Ecdh;
    type Ecdsa;
    type Sha256;
    type Hmac256;
    type Hkdf256;
}

/// The ECDH family of one backend: its key and shared-secret types.
pub trait Ecdh {
    type SecretKey;
    type PublicKey;
    type SharedSecret;
}

/// The ECDSA family of one backend: its key and signature types.
pub trait Ecdsa {
    type SecretKey;
    type PublicKey;
    type Signature;
}

/// The software-backed capability bundle.
pub struct SoftwareCrypto;

impl Crypto for SoftwareCrypto {
    type Ecdh = ecdh::SoftwareEcdh;
    type Ecdsa = ecdsa::SoftwareEcdsa;
    type Sha256 = sha256::SoftwareSha256;
    type Hmac256 = hmac256::SoftwareHmac256;
    type Hkdf256 = hkdf256::SoftwareHkdf256;
}

impl Ecdh for ecdh::SoftwareEcdh {
    type SecretKey = ecdh::SoftwareEcdhSecretKey;
    type PublicKey = ecdh::SoftwareEcdhPublicKey;
    type SharedSecret = ecdh::SoftwareEcdhSharedSecret;
}

impl Ecdsa for ecdsa::SoftwareEcdsa {
    type SecretKey = ecdsa::SoftwareEcdsaSecretKey;
    type PublicKey = ecdsa::SoftwareEcdsaPublicKey;
    type Signature = ecdsa::SoftwareEcdsaSignature;
}

} // verus!
