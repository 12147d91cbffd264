//! The P-256 curve boundary shared by key agreement and signing.
//!
//! A scalar is carried as its canonical 32-byte big-endian encoding, a
//! public key as its two affine coordinates of the same width. Scalar
//! validation is byte arithmetic and is implemented and verified here; what
//! only the curve library can compute (scalar generation, the base-point
//! multiple, the on-curve check) sits behind the trusted wrappers below.

use vstd::prelude::*;

use p256::elliptic_curve::sec1::ToEncodedPoint;

use crate::EC_FIELD_SIZE;
use crate::bytes::{all_zero, is_zero_bytes, lex_lt, lt_bytes};

verus! {

/// The order of the P-256 base-point group, big-endian.
pub open spec fn p256_order() -> Seq<u8> {
    seq![
        0xffu8, 0xff, 0xff, 0xff, 0x00, 0x00, 0x00, 0x00,
        0xff, 0xff, 0xff, 0xff, 0xff, 0xff, 0xff, 0xff,
        0xbc, 0xe6, 0xfa, 0xad, 0xa7, 0x17, 0x9e, 0x84,
        0xf3, 0xb9, 0xca, 0xc2, 0xfc, 0x63, 0x25, 0x51,
    ]
}

/// A canonical scalar encoding: exactly one field element wide, non-zero,
/// and below the group order.
pub open spec fn is_valid_scalar(b: Seq<u8>) -> bool {
    b.len() == EC_FIELD_SIZE && !is_zero_bytes(b) && lex_lt(b, p256_order())
}

/// The affine coordinates, x then y, of the scalar multiple of the
/// base point.
pub uninterp spec fn pub_point_of(scalar: Seq<u8>) -> Seq<u8>;

/// Whether 64 coordinate bytes, x then y, spell a point that the curve
/// library accepts: coordinates below the field prime, on the curve, and
/// not the identity.
pub uninterp spec fn p256_valid_point(coordinates: Seq<u8>) -> bool;

/// The group order as runtime bytes.
pub fn curve_order() -> (r: [u8; EC_FIELD_SIZE])
    ensures
        r@ == p256_order(),
{
    let r: [u8; EC_FIELD_SIZE] = [
        0xff, 0xff, 0xff, 0xff, 0x00, 0x00, 0x00, 0x00,
        0xff, 0xff, 0xff, 0xff, 0xff, 0xff, 0xff, 0xff,
        0xbc, 0xe6, 0xfa, 0xad, 0xa7, 0x17, 0x9e, 0x84,
        0xf3, 0xb9, 0xca, 0xc2, 0xfc, 0x63, 0x25, 0x51,
    ];
    proof {
        assert(r@ =~= p256_order());
    }
    r
}

/// Decides whether one field element spells a canonical scalar.
pub fn scalar_in_range(b: &[u8]) -> (r: bool)
    requires
        b@.len() == EC_FIELD_SIZE,
    ensures
        r == is_valid_scalar(b@),
{
    let order = curve_order();
    let nonzero = !all_zero(b);
    let below = lt_bytes(b, order.as_slice());
    nonzero && below
}

/// Relies on p256::NonZeroScalar::random: a uniformly drawn non-zero
/// scalar below the group order, encoded canonically. Draws from the
/// operating system's entropy source.
#[verifier::external_body]
pub(crate) fn p256_random_scalar() -> (r: [u8; EC_FIELD_SIZE])
    ensures
        is_valid_scalar(r@),
{
    let scalar = p256::NonZeroScalar::random(&mut rand_core::OsRng);
    let repr = p256::FieldBytes::from(scalar);
    let mut out = [0u8; EC_FIELD_SIZE];
    out.copy_from_slice(repr.as_slice());
    out
}

/// Relies on p256::PublicKey::from_secret_scalar and its uncompressed
/// SEC1 encoding: the affine coordinates of the base-point multiple of a
/// canonical scalar, always a valid non-identity point.
#[verifier::external_body]
pub(crate) fn p256_base_point_mul(scalar: &[u8; EC_FIELD_SIZE]) -> (r: ([u8; EC_FIELD_SIZE], [u8; EC_FIELD_SIZE]))
    requires
        is_valid_scalar(scalar@),
    ensures
        r.0@ + r.1@ == pub_point_of(scalar@),
        p256_valid_point(r.0@ + r.1@),
{
    let scalar = p256::NonZeroScalar::try_from(&scalar[..]).unwrap();
    let key = p256::PublicKey::from_secret_scalar(&scalar);
    let point = key.to_encoded_point(false);
    let mut x = [0u8; EC_FIELD_SIZE];
    let mut y = [0u8; EC_FIELD_SIZE];
    x.copy_from_slice(point.x().unwrap());
    y.copy_from_slice(point.y().unwrap());
    (x, y)
}

/// Relies on p256::PublicKey::from_sec1_bytes: accepts exactly the
/// coordinate pairs that lie on the curve and are not the identity. Every
/// accepted point is a base-point multiple of some canonical scalar, the
/// P-256 group being cyclic of prime order with the base point as a
/// generator.
#[verifier::external_body]
pub(crate) fn p256_point_on_curve(x: &[u8; EC_FIELD_SIZE], y: &[u8; EC_FIELD_SIZE]) -> (r: bool)
    ensures
        r == p256_valid_point(x@ + y@),
        r ==> exists|d: Seq<u8>| is_valid_scalar(d) && pub_point_of(d) == x@ + y@,
{
    let point = p256::EncodedPoint::from_affine_coordinates(x.into(), y.into(), false);
    p256::PublicKey::from_sec1_bytes(point.as_bytes()).is_ok()
}

} // verus!
