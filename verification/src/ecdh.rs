//! Elliptic-curve Diffie-Hellman key agreement over P-256.
//!
//! A secret key owns one ephemeral scalar and is never serialized; a public
//! key is a validated curve point exposed only through its coordinate pair;
//! the shared secret is the raw x-coordinate of the agreed point, to be run
//! through a key-derivation function before use as a symmetric key.

use vstd::prelude::*;

use crate::EC_FIELD_SIZE;
use crate::bytes::{lemma_lex_lt_asymmetric, lemma_lex_lt_total, lex_lt};
use crate::curve::{
    is_valid_scalar, p256_base_point_mul, p256_point_on_curve, p256_random_scalar,
    p256_valid_point, pub_point_of,
};

verus! {

/// The x-coordinate of the point agreed by the two secret scalars, taken
/// with the lexicographically smaller scalar first. Meaningful only when
/// applied through `shared_secret_of`, which orders its arguments.
pub uninterp spec fn ecdh_x_of(a: Seq<u8>, b: Seq<u8>) -> Seq<u8>;

/// The shared secret of two secret scalars: the x-coordinate of the scalar
/// product of the base point. The pair is canonicalised by the byte order,
/// so the value depends only on the unordered pair.
pub open spec fn shared_secret_of(a: Seq<u8>, b: Seq<u8>) -> Seq<u8> {
    if lex_lt(b, a) {
        ecdh_x_of(b, a)
    } else {
        ecdh_x_of(a, b)
    }
}

/// Key agreement is symmetric: both sides of an exchange derive the same
/// value from their own secret scalar and the peer's.
pub proof fn lemma_shared_secret_symmetric(a: Seq<u8>, b: Seq<u8>)
    requires
        a.len() == b.len(),
    ensures
        shared_secret_of(a, b) == shared_secret_of(b, a),
{
    if a == b {
        if lex_lt(a, b) {
            lemma_lex_lt_asymmetric(a, b);
        }
    } else {
        lemma_lex_lt_total(a, b);
        if lex_lt(a, b) {
            lemma_lex_lt_asymmetric(a, b);
        } else {
            lemma_lex_lt_asymmetric(b, a);
        }
    }
}

/// The ECDH family: the type bindings of this backend.
pub struct SoftwareEcdh;

/// An ephemeral ECDH secret key. Holds the canonical encoding of a scalar;
/// there is deliberately no serialization in or out.
pub struct SoftwareEcdhSecretKey {
    bytes: [u8; EC_FIELD_SIZE],
}

/// A validated ECDH public key: a non-identity point on the curve, exposed
/// only as its coordinate pair. The ghost scalar is the point's discrete
/// logarithm, which exists for every accepted point; it ties the agreement
/// contract to the peer's secret.
pub struct SoftwareEcdhPublicKey {
    x: [u8; EC_FIELD_SIZE],
    y: [u8; EC_FIELD_SIZE],
    generator: Ghost<Seq<u8>>,
}

/// The raw shared x-coordinate produced by key agreement.
pub struct SoftwareEcdhSharedSecret {
    bytes: [u8; EC_FIELD_SIZE],
}

impl SoftwareEcdhSecretKey {
    #[verifier::type_invariant]
    spec fn inv(self) -> bool {
        is_valid_scalar(self.bytes@)
    }

    /// The canonical encoding of the owned scalar.
    pub closed spec fn scalar_bytes(&self) -> Seq<u8> {
        self.bytes@
    }

    /// Draws a fresh ephemeral secret from the system entropy source.
    pub fn random() -> (r: Self)
        ensures
            is_valid_scalar(r.scalar_bytes()),
    {
        Self { bytes: p256_random_scalar() }
    }

    /// Derives the public key of this secret: the base-point multiple of
    /// the owned scalar.
    pub fn public_key(&self) -> (r: SoftwareEcdhPublicKey)
        ensures
            r.coords() == pub_point_of(self.scalar_bytes()),
            r.generator_scalar() == self.scalar_bytes(),
            p256_valid_point(r.coords()),
    {
        proof {
            use_type_invariant(self);
        }
        let (x, y) = p256_base_point_mul(&self.bytes);
        SoftwareEcdhPublicKey { x, y, generator: Ghost(self.bytes@) }
    }

    /// Computes the shared secret with the peer's public key. The result
    /// depends only on the unordered pair of the two secret scalars, so
    /// both parties of an exchange derive the same value.
    pub fn diffie_hellman(&self, public_key: &SoftwareEcdhPublicKey) -> (r: SoftwareEcdhSharedSecret)
        ensures
            r.bytes_view() == shared_secret_of(self.scalar_bytes(), public_key.generator_scalar()),
    {
        proof {
            use_type_invariant(self);
            use_type_invariant(public_key);
        }
        SoftwareEcdhSharedSecret { bytes: p256_diffie_hellman(&self.bytes, public_key) }
    }
}

impl SoftwareEcdhPublicKey {
    #[verifier::type_invariant]
    spec fn inv(self) -> bool {
        is_valid_scalar(self.generator@) && pub_point_of(self.generator@) == self.x@ + self.y@
            && p256_valid_point(self.x@ + self.y@)
    }

    /// The coordinate bytes, x then y.
    pub closed spec fn coords(&self) -> Seq<u8> {
        self.x@ + self.y@
    }

    /// The discrete logarithm of the point: the scalar whose base-point
    /// multiple it is.
    pub closed spec fn generator_scalar(&self) -> Seq<u8> {
        self.generator@
    }

    /// Validates a coordinate pair and, when it spells a point on the
    /// curve other than the identity, builds the public key carrying
    /// exactly those coordinates.
    pub fn from_coordinates(x: &[u8; EC_FIELD_SIZE], y: &[u8; EC_FIELD_SIZE]) -> (r: Option<Self>)
        ensures
            r is Some <==> p256_valid_point(x@ + y@),
            r is Some ==> r.unwrap().coords() == x@ + y@,
            r is Some ==> pub_point_of(r.unwrap().generator_scalar()) == x@ + y@,
    {
        if p256_point_on_curve(x, y) {
            let generator = Ghost(
                choose|d: Seq<u8>| is_valid_scalar(d) && pub_point_of(d) == x@ + y@,
            );
            Some(Self { x: *x, y: *y, generator })
        } else {
            None
        }
    }

    /// Writes the point's coordinates into the caller's buffers. A pure
    /// projection: it always succeeds, and what it writes is a valid
    /// coordinate pair, so the round trip through `from_coordinates`
    /// reproduces this key.
    pub fn to_coordinates(&self, x: &mut [u8; EC_FIELD_SIZE], y: &mut [u8; EC_FIELD_SIZE])
        ensures
            final(x)@ + final(y)@ == self.coords(),
            p256_valid_point(self.coords()),
    {
        proof {
            use_type_invariant(self);
        }
        *x = self.x;
        *y = self.y;
    }
}

impl SoftwareEcdhSharedSecret {
    /// The bytes of the shared x-coordinate.
    pub closed spec fn bytes_view(&self) -> Seq<u8> {
        self.bytes@
    }

    /// Exposes the raw shared x-coordinate.
    pub fn raw_secret_bytes(&self) -> (r: [u8; EC_FIELD_SIZE])
        ensures
            r@ == self.bytes_view(),
    {
        self.bytes
    }
}

/// Relies on p256::ecdh::diffie_hellman: the shared secret is the
/// x-coordinate of the peer point multiplied by the own scalar. With the
/// peer point the base-point multiple of the peer's scalar, that is the
/// x-coordinate of the base point multiplied by both scalars, a value
/// symmetric in the unordered pair.
#[verifier::external_body]
fn p256_diffie_hellman(scalar: &[u8; EC_FIELD_SIZE], peer: &SoftwareEcdhPublicKey) -> (r: [u8; EC_FIELD_SIZE])
    requires
        is_valid_scalar(scalar@),
        p256_valid_point(peer.coords()),
        pub_point_of(peer.generator_scalar()) == peer.coords(),
    ensures
        lex_lt(peer.generator_scalar(), scalar@) ==> r@ == ecdh_x_of(
            peer.generator_scalar(),
            scalar@,
        ),
        !lex_lt(peer.generator_scalar(), scalar@) ==> r@ == ecdh_x_of(
            scalar@,
            peer.generator_scalar(),
        ),
{
    let scalar = p256::NonZeroScalar::try_from(&scalar[..]).unwrap();
    let point = p256::EncodedPoint::from_affine_coordinates((&peer.x).into(), (&peer.y).into(), false);
    let key = p256::PublicKey::from_sec1_bytes(point.as_bytes()).unwrap();
    let shared = p256::ecdh::diffie_hellman(scalar, key.as_affine());
    let mut out = [0u8; EC_FIELD_SIZE];
    out.copy_from_slice(shared.raw_secret_bytes().as_slice());
    out
}

} // verus!
