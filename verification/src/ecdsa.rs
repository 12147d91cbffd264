//! ECDSA signing and verification over P-256.
//!
//! A secret key is a non-zero scalar, serializable to and from exactly one
//! field element; a public key is a validated curve point used only to
//! verify; a signature is the scalar pair r and s in raw fixed-width form,
//! convertible to DER for interchange. Signing hashes and signs exactly
//! the bytes given; verification answers with a plain boolean, the same in
//! shape whatever the reason a candidate fails.

use vstd::prelude::*;

use p256::ecdsa::signature::{Signer, Verifier};

use crate::{EC_FIELD_SIZE, EC_SIGNATURE_SIZE};
use crate::curve::{
    is_valid_scalar, p256_base_point_mul, p256_point_on_curve, p256_random_scalar,
    p256_valid_point, pub_point_of, scalar_in_range,
};
use crate::der::{der_signature, lemma_der_integer_len, push_der_integer};
use vstd::slice::slice_subrange;

verus! {

/// Whether the p256 verifier accepts the raw signature for the message
/// under the public key with the given coordinate bytes, x then y. False
/// whenever the coordinates or the signature fail to parse.
pub uninterp spec fn sig_valid(coordinates: Seq<u8>, message: Seq<u8>, signature: Seq<u8>) -> bool;

/// Both halves of a raw signature are canonical non-zero scalars.
pub open spec fn signature_scalars_valid(raw: Seq<u8>) -> bool {
    &&& raw.len() == EC_SIGNATURE_SIZE
    &&& is_valid_scalar(raw.take(EC_FIELD_SIZE as int))
    &&& is_valid_scalar(raw.skip(EC_FIELD_SIZE as int))
}

/// The ECDSA family: the type bindings of this backend.
pub struct SoftwareEcdsa;

/// An ECDSA secret key: a canonical non-zero scalar.
pub struct SoftwareEcdsaSecretKey {
    bytes: [u8; EC_FIELD_SIZE],
}

/// A validated ECDSA public key: a non-identity point on the curve,
/// exposed only as its coordinate pair.
pub struct SoftwareEcdsaPublicKey {
    x: [u8; EC_FIELD_SIZE],
    y: [u8; EC_FIELD_SIZE],
}

/// A raw ECDSA signature: the scalars r and s concatenated.
pub struct SoftwareEcdsaSignature {
    bytes: [u8; EC_SIGNATURE_SIZE],
}

impl SoftwareEcdsaSecretKey {
    #[verifier::type_invariant]
    spec fn inv(self) -> bool {
        is_valid_scalar(self.bytes@)
    }

    /// The canonical encoding of the owned scalar.
    pub closed spec fn scalar_bytes(&self) -> Seq<u8> {
        self.bytes@
    }

    /// Draws a fresh secret key from the system entropy source.
    pub fn random() -> (r: Self)
        ensures
            is_valid_scalar(r.scalar_bytes()),
    {
        Self { bytes: p256_random_scalar() }
    }

    /// Deserializes a secret key. Succeeds exactly when the bytes spell a
    /// canonical scalar: non-zero and below the group order; the key then
    /// carries exactly those bytes, so it signs and derives as the
    /// serialized key did.
    pub fn from_slice(bytes: &[u8; EC_FIELD_SIZE]) -> (r: Option<Self>)
        ensures
            r is Some <==> is_valid_scalar(bytes@),
            r is Some ==> r.unwrap().scalar_bytes() == bytes@,
    {
        if scalar_in_range(bytes.as_slice()) {
            Some(Self { bytes: *bytes })
        } else {
            None
        }
    }

    /// Derives the public key of this secret: the base-point multiple of
    /// the owned scalar.
    pub fn public_key(&self) -> (r: SoftwareEcdsaPublicKey)
        ensures
            r.coords() == pub_point_of(self.scalar_bytes()),
            p256_valid_point(r.coords()),
    {
        proof {
            use_type_invariant(self);
        }
        let (x, y) = p256_base_point_mul(&self.bytes);
        SoftwareEcdsaPublicKey { x, y }
    }

    /// Signs exactly the bytes given. The signature verifies under this
    /// key's public key, and both of its halves are canonical non-zero
    /// scalars.
    pub fn sign(&self, message: &[u8]) -> (r: SoftwareEcdsaSignature)
        ensures
            sig_valid(pub_point_of(self.scalar_bytes()), message@, r.bytes_view()),
            signature_scalars_valid(r.bytes_view()),
    {
        proof {
            use_type_invariant(self);
        }
        let bytes = p256_ecdsa_sign(&self.bytes, message);
        SoftwareEcdsaSignature { bytes }
    }

    /// Serializes the owned scalar into the caller's buffer; always
    /// succeeds for a valid key.
    pub fn to_slice(&self, bytes: &mut [u8; EC_FIELD_SIZE])
        ensures
            final(bytes)@ == self.scalar_bytes(),
            is_valid_scalar(self.scalar_bytes()),
    {
        proof {
            use_type_invariant(self);
        }
        *bytes = self.bytes;
    }
}

impl SoftwareEcdsaPublicKey {
    #[verifier::type_invariant]
    spec fn inv(self) -> bool {
        p256_valid_point(self.x@ + self.y@)
    }

    /// The coordinate bytes, x then y.
    pub closed spec fn coords(&self) -> Seq<u8> {
        self.x@ + self.y@
    }

    /// Validates a coordinate pair and, when it spells a point on the
    /// curve other than the identity, builds the public key carrying
    /// exactly those coordinates.
    pub fn from_coordinates(x: &[u8; EC_FIELD_SIZE], y: &[u8; EC_FIELD_SIZE]) -> (r: Option<Self>)
        ensures
            r is Some <==> p256_valid_point(x@ + y@),
            r is Some ==> r.unwrap().coords() == x@ + y@,
    {
        if p256_point_on_curve(x, y) {
            Some(Self { x: *x, y: *y })
        } else {
            None
        }
    }

    /// Decides whether the signature is valid for the message under this
    /// key. A plain boolean: nothing distinguishes a malformed candidate
    /// from a well-formed wrong one.
    pub fn verify(&self, message: &[u8], signature: &SoftwareEcdsaSignature) -> (r: bool)
        ensures
            r == sig_valid(self.coords(), message@, signature.bytes_view()),
    {
        p256_ecdsa_verify(&self.x, &self.y, message, &signature.bytes)
    }

    /// Writes the point's coordinates into the caller's buffers. A pure
    /// projection: it always succeeds, and what it writes is a valid
    /// coordinate pair, so the round trip through `from_coordinates`
    /// reproduces this key.
    pub fn to_coordinates(&self, x: &mut [u8; EC_FIELD_SIZE], y: &mut [u8; EC_FIELD_SIZE])
        ensures
            final(x)@ + final(y)@ == self.coords(),
            p256_valid_point(self.coords()),
    {
        proof {
            use_type_invariant(self);
        }
        *x = self.x;
        *y = self.y;
    }
}

impl SoftwareEcdsaSignature {
    #[verifier::type_invariant]
    spec fn inv(self) -> bool {
        signature_scalars_valid(self.bytes@)
    }

    /// The raw bytes: r then s.
    pub closed spec fn bytes_view(&self) -> Seq<u8> {
        self.bytes@
    }

    /// Parses a raw signature. Succeeds exactly when each half spells a
    /// canonical non-zero scalar; the signature then carries exactly the
    /// given bytes.
    pub fn from_slice(bytes: &[u8; EC_SIGNATURE_SIZE]) -> (r: Option<Self>)
        ensures
            r is Some <==> signature_scalars_valid(bytes@),
            r is Some ==> r.unwrap().bytes_view() == bytes@,
    {
        let r_half = slice_subrange(bytes.as_slice(), 0, EC_FIELD_SIZE);
        let s_half = slice_subrange(bytes.as_slice(), EC_FIELD_SIZE, EC_SIGNATURE_SIZE);
        proof {
            assert(r_half@ =~= bytes@.take(EC_FIELD_SIZE as int));
            assert(s_half@ =~= bytes@.skip(EC_FIELD_SIZE as int));
        }
        if scalar_in_range(r_half) && scalar_in_range(s_half) {
            Some(Self { bytes: *bytes })
        } else {
            None
        }
    }

    /// Encodes the signature as DER SEQUENCE { INTEGER r, INTEGER s };
    /// always succeeds.
    pub fn to_der(&self) -> (r: Vec<u8>)
        ensures
            r@ == der_signature(self.bytes_view()),
    {
        let r_half = slice_subrange(self.bytes.as_slice(), 0, EC_FIELD_SIZE);
        let s_half = slice_subrange(self.bytes.as_slice(), EC_FIELD_SIZE, EC_SIGNATURE_SIZE);
        proof {
            assert(r_half@ =~= self.bytes@.take(EC_FIELD_SIZE as int));
            assert(s_half@ =~= self.bytes@.skip(EC_FIELD_SIZE as int));
        }
        let mut body: Vec<u8> = Vec::new();
        push_der_integer(&mut body, r_half);
        push_der_integer(&mut body, s_half);
        proof {
            lemma_der_integer_len(r_half@);
            lemma_der_integer_len(s_half@);
        }
        let mut out: Vec<u8> = Vec::new();
        out.push(0x30);
        out.push(body.len() as u8);
        out.append(&mut body);
        proof {
            assert(out@ =~= der_signature(self.bytes@));
        }
        out
    }
}

/// Relies on p256::ecdsa::SigningKey::sign: an ECDSA signature over the
/// given message, hashed with SHA-256, that the p256 verifier accepts
/// under the key's public point; its halves r and s are canonical
/// non-zero scalars.
#[verifier::external_body]
fn p256_ecdsa_sign(scalar: &[u8; EC_FIELD_SIZE], message: &[u8]) -> (r: [u8; EC_SIGNATURE_SIZE])
    requires
        is_valid_scalar(scalar@),
    ensures
        sig_valid(pub_point_of(scalar@), message@, r@),
        is_valid_scalar(r@.take(EC_FIELD_SIZE as int)),
        is_valid_scalar(r@.skip(EC_FIELD_SIZE as int)),
{
    let key = p256::ecdsa::SigningKey::from_slice(&scalar[..]).unwrap();
    let signature: p256::ecdsa::Signature = key.sign(message);
    let bytes = signature.to_bytes();
    let mut out = [0u8; EC_SIGNATURE_SIZE];
    out.copy_from_slice(bytes.as_slice());
    out
}

/// Relies on p256::ecdsa::VerifyingKey::verify: decides whether the raw
/// signature is valid for the message under the public key with the given
/// coordinates. A coordinate pair or signature that does not parse is
/// reported invalid, never an error.
#[verifier::external_body]
fn p256_ecdsa_verify(
    x: &[u8; EC_FIELD_SIZE],
    y: &[u8; EC_FIELD_SIZE],
    message: &[u8],
    signature: &[u8; EC_SIGNATURE_SIZE],
) -> (r: bool)
    ensures
        r == sig_valid(x@ + y@, message@, signature@),
{
    let point = p256::EncodedPoint::from_affine_coordinates(x.into(), y.into(), false);
    let key = match p256::ecdsa::VerifyingKey::from_encoded_point(&point) {
        Ok(key) => key,
        Err(_) => return false,
    };
    let parsed = match p256::ecdsa::Signature::from_slice(&signature[..]) {
        Ok(parsed) => parsed,
        Err(_) => return false,
    };
    key.verify(message, &parsed).is_ok()
}

} // verus!
