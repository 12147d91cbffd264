//! Known-answer vectors, parse edge cases, mutation rejection, DER
//! interchange checks against the curve library, and streaming splits.

use p256::ecdsa::signature::{SignatureEncoding, Signer};
use p256::elliptic_curve::sec1::ToEncodedPoint;

use soft_crypto::ecdh::{SoftwareEcdhPublicKey, SoftwareEcdhSecretKey};
use soft_crypto::ecdsa::{SoftwareEcdsaPublicKey, SoftwareEcdsaSecretKey, SoftwareEcdsaSignature};
use soft_crypto::hmac256::SoftwareHmac256;
use soft_crypto::sha256::SoftwareSha256;
use soft_crypto::{EC_FIELD_SIZE, EC_SIGNATURE_SIZE, HMAC_KEY_SIZE, TRUNCATED_HMAC_SIZE};

/// The order of the P-256 base-point group, big-endian.
const ORDER: [u8; 32] = [
    0xff, 0xff, 0xff, 0xff, 0x00, 0x00, 0x00, 0x00, 0xff, 0xff, 0xff, 0xff, 0xff, 0xff, 0xff,
    0xff, 0xbc, 0xe6, 0xfa, 0xad, 0xa7, 0x17, 0x9e, 0x84, 0xf3, 0xb9, 0xca, 0xc2, 0xfc, 0x63,
    0x25, 0x51,
];

fn scalar_of(last: u8) -> [u8; EC_FIELD_SIZE] {
    let mut bytes = [0u8; EC_FIELD_SIZE];
    bytes[EC_FIELD_SIZE - 1] = last;
    bytes
}

#[test]
fn sha256_known_vector() {
    let expected = [
        0xba, 0x78, 0x16, 0xbf, 0x8f, 0x01, 0xcf, 0xea, 0x41, 0x41, 0x40, 0xde, 0x5d, 0xae,
        0x22, 0x23, 0xb0, 0x03, 0x61, 0xa3, 0x96, 0x17, 0x7a, 0x9c, 0xb4, 0x10, 0xff, 0x61,
        0xf2, 0x00, 0x15, 0xad,
    ];
    assert_eq!(SoftwareSha256::digest(b"abc"), expected);
}

#[test]
fn sha256_streaming_splits_match_one_shot() {
    let data: Vec<u8> = (0u8..=250).collect();
    let expected = SoftwareSha256::digest(&data);
    for split in [0usize, 1, 100, 250, 251] {
        let mut hasher = SoftwareSha256::new();
        hasher.update(&data[..split]);
        hasher.update(&data[split..]);
        assert_eq!(hasher.finalize(), expected);
    }
    let mut hasher = SoftwareSha256::new();
    for byte in &data {
        hasher.update(&[*byte]);
    }
    assert_eq!(hasher.finalize(), expected);
    let mut hasher = SoftwareSha256::new();
    hasher.update(&[]);
    hasher.update(&data);
    hasher.update(&[]);
    assert_eq!(hasher.finalize(), expected);
}

#[test]
fn hmac256_known_vector() {
    let key = [0xAA; HMAC_KEY_SIZE];
    let data = [0x55; 16];
    let expected = [
        0xee, 0x1d, 0x2f, 0xc5, 0x9f, 0x72, 0xf3, 0xaa, 0xe7, 0x69, 0x85, 0xa0, 0x55, 0xd2,
        0x0f, 0x5d, 0xe2, 0xf9, 0xf3, 0x1d, 0xe0, 0x47, 0x30, 0xfa, 0x95, 0x41, 0x69, 0xc5,
        0x86, 0x7a, 0xdf, 0xaf,
    ];
    assert_eq!(SoftwareHmac256::mac(&key, &data), expected);
}

#[test]
fn hmac256_rejects_wrong_tags() {
    let key = [0x07; HMAC_KEY_SIZE];
    let data = b"authenticated channel";
    let mut mac = SoftwareHmac256::mac(&key, data);
    mac[31] ^= 0x01;
    assert!(!SoftwareHmac256::verify(&key, data, &mac));
    mac[31] ^= 0x01;
    mac[0] ^= 0x80;
    assert!(!SoftwareHmac256::verify(&key, data, &mac));

    let full = SoftwareHmac256::mac(&key, data);
    let mut truncated = [0u8; TRUNCATED_HMAC_SIZE];
    truncated.copy_from_slice(&full[..TRUNCATED_HMAC_SIZE]);
    truncated[TRUNCATED_HMAC_SIZE - 1] ^= 0x01;
    assert!(!SoftwareHmac256::verify_truncated_left(&key, data, &truncated));
}

#[test]
fn ecdsa_secret_key_parse_bounds() {
    assert!(SoftwareEcdsaSecretKey::from_slice(&[0u8; EC_FIELD_SIZE]).is_none());
    assert!(SoftwareEcdsaSecretKey::from_slice(&ORDER).is_none());
    let mut above = ORDER;
    above[31] = 0xff;
    assert!(SoftwareEcdsaSecretKey::from_slice(&above).is_none());
    let mut below = ORDER;
    below[31] = 0x50;
    assert!(SoftwareEcdsaSecretKey::from_slice(&below).is_some());
    assert!(SoftwareEcdsaSecretKey::from_slice(&scalar_of(1)).is_some());
}

#[test]
fn ecdsa_signature_parse_bounds() {
    let mut raw = [0u8; EC_SIGNATURE_SIZE];
    raw[31] = 1;
    raw[63] = 1;
    assert!(SoftwareEcdsaSignature::from_slice(&raw).is_some());
    let mut zero_r = raw;
    zero_r[31] = 0;
    assert!(SoftwareEcdsaSignature::from_slice(&zero_r).is_none());
    let mut big_s = raw;
    big_s[32..64].copy_from_slice(&ORDER);
    assert!(SoftwareEcdsaSignature::from_slice(&big_s).is_none());
}

#[test]
fn ecdsa_secret_key_round_trip_reproduces_public_key() {
    let key = SoftwareEcdsaSecretKey::random();
    let mut bytes = [0u8; EC_FIELD_SIZE];
    key.to_slice(&mut bytes);
    let again = SoftwareEcdsaSecretKey::from_slice(&bytes).unwrap();
    let mut x = [0u8; EC_FIELD_SIZE];
    let mut y = [0u8; EC_FIELD_SIZE];
    let mut x2 = [0u8; EC_FIELD_SIZE];
    let mut y2 = [0u8; EC_FIELD_SIZE];
    key.public_key().to_coordinates(&mut x, &mut y);
    again.public_key().to_coordinates(&mut x2, &mut y2);
    assert_eq!(x, x2);
    assert_eq!(y, y2);
}

#[test]
fn base_point_known_vector() {
    // The scalar one maps to the curve's base point.
    let key = SoftwareEcdsaSecretKey::from_slice(&scalar_of(1)).unwrap();
    let mut x = [0u8; EC_FIELD_SIZE];
    let mut y = [0u8; EC_FIELD_SIZE];
    key.public_key().to_coordinates(&mut x, &mut y);
    let gx = [
        0x6b, 0x17, 0xd1, 0xf2, 0xe1, 0x2c, 0x42, 0x47, 0xf8, 0xbc, 0xe6, 0xe5, 0x63, 0xa4,
        0x40, 0xf2, 0x77, 0x03, 0x7d, 0x81, 0x2d, 0xeb, 0x33, 0xa0, 0xf4, 0xa1, 0x39, 0x45,
        0xd8, 0x98, 0xc2, 0x96,
    ];
    let gy = [
        0x4f, 0xe3, 0x42, 0xe2, 0xfe, 0x1a, 0x7f, 0x9b, 0x8e, 0xe7, 0xeb, 0x4a, 0x7c, 0x0f,
        0x9e, 0x16, 0x2b, 0xce, 0x33, 0x57, 0x6b, 0x31, 0x5e, 0xce, 0xcb, 0xb6, 0x40, 0x68,
        0x37, 0xbf, 0x51, 0xf5,
    ];
    assert_eq!(x, gx);
    assert_eq!(y, gy);
}

#[test]
fn ecdh_rejects_off_curve_point() {
    let one = scalar_of(1);
    assert!(SoftwareEcdhPublicKey::from_coordinates(&one, &one).is_none());
    assert!(SoftwareEcdsaPublicKey::from_coordinates(&one, &one).is_none());
}

#[test]
fn ecdsa_public_key_coordinate_round_trip() {
    let key = SoftwareEcdsaSecretKey::random();
    let public_key = key.public_key();
    let mut x = [0u8; EC_FIELD_SIZE];
    let mut y = [0u8; EC_FIELD_SIZE];
    public_key.to_coordinates(&mut x, &mut y);
    let again = SoftwareEcdsaPublicKey::from_coordinates(&x, &y).unwrap();
    let mut x2 = [0u8; EC_FIELD_SIZE];
    let mut y2 = [0u8; EC_FIELD_SIZE];
    again.to_coordinates(&mut x2, &mut y2);
    assert_eq!(x, x2);
    assert_eq!(y, y2);
}

#[test]
fn ecdh_agreement_matches_curve_library() {
    // One side is driven directly through the curve library; the other
    // side is this library. Both must land on the same shared secret.
    let ours = SoftwareEcdhSecretKey::random();
    let our_public = ours.public_key();

    let peer_scalar = p256::NonZeroScalar::try_from(&scalar_of(2)[..]).unwrap();
    let peer_public = p256::PublicKey::from_secret_scalar(&peer_scalar);
    let peer_point = peer_public.to_encoded_point(false);
    let mut peer_x = [0u8; EC_FIELD_SIZE];
    let mut peer_y = [0u8; EC_FIELD_SIZE];
    peer_x.copy_from_slice(peer_point.x().unwrap());
    peer_y.copy_from_slice(peer_point.y().unwrap());

    let shared_ours = ours
        .diffie_hellman(&SoftwareEcdhPublicKey::from_coordinates(&peer_x, &peer_y).unwrap())
        .raw_secret_bytes();

    let mut x = [0u8; EC_FIELD_SIZE];
    let mut y = [0u8; EC_FIELD_SIZE];
    our_public.to_coordinates(&mut x, &mut y);
    let our_point = p256::EncodedPoint::from_affine_coordinates((&x).into(), (&y).into(), false);
    let our_p256 = p256::PublicKey::from_sec1_bytes(our_point.as_bytes()).unwrap();
    let shared_theirs =
        p256::ecdh::diffie_hellman(peer_scalar, our_p256.as_affine());
    assert_eq!(&shared_ours[..], shared_theirs.raw_secret_bytes().as_slice());
}

#[test]
fn der_known_value() {
    // r is one; s has the top bit set, so DER prepends a zero byte.
    let mut raw = [0u8; EC_SIGNATURE_SIZE];
    raw[31] = 0x01;
    raw[32] = 0x80;
    let signature = SoftwareEcdsaSignature::from_slice(&raw).unwrap();
    let mut expected = vec![0x30, 0x26, 0x02, 0x01, 0x01, 0x02, 0x21, 0x00, 0x80];
    expected.extend_from_slice(&[0u8; 31]);
    assert_eq!(signature.to_der(), expected);
}

#[test]
fn der_matches_curve_library() {
    let scalar = scalar_of(0x2a);
    let message = b"interchange";
    let key = SoftwareEcdsaSecretKey::from_slice(&scalar).unwrap();
    let ours = key.sign(message).to_der();

    let direct_key = p256::ecdsa::SigningKey::from_slice(&scalar).unwrap();
    let direct_signature: p256::ecdsa::Signature = direct_key.sign(message);
    let direct_der: Vec<u8> = direct_signature.to_der().to_vec();
    assert_eq!(ours, direct_der);
}

#[test]
fn verify_rejects_mutated_message() {
    let key = SoftwareEcdsaSecretKey::from_slice(&scalar_of(7)).unwrap();
    let public_key = key.public_key();
    let message = [0x12, 0x34, 0x56, 0x78];
    let signature = key.sign(&message);
    for bit in 0..32 {
        let mut mutated = message;
        mutated[bit / 8] ^= 1 << (bit % 8);
        assert!(!public_key.verify(&mutated, &signature));
    }
}

#[test]
fn verify_rejects_mutated_signature() {
    let key = SoftwareEcdsaSecretKey::from_slice(&scalar_of(7)).unwrap();
    let public_key = key.public_key();
    let message = [0x12, 0x34, 0x56, 0x78];
    // Signing is deterministic for a fixed key and message, so the raw
    // bytes of the signature can be reproduced through the curve library.
    let direct_key = p256::ecdsa::SigningKey::from_slice(&scalar_of(7)).unwrap();
    let direct_signature: p256::ecdsa::Signature = direct_key.sign(&message);
    let mut raw = [0u8; EC_SIGNATURE_SIZE];
    raw.copy_from_slice(direct_signature.to_bytes().as_slice());
    for bit in 0..(EC_SIGNATURE_SIZE * 8) {
        let mut mutated = raw;
        mutated[bit / 8] ^= 1 << (bit % 8);
        // A mutation either fails to parse or fails to verify.
        if let Some(candidate) = SoftwareEcdsaSignature::from_slice(&mutated) {
            assert!(!public_key.verify(&message, &candidate));
        }
    }
    // The unmutated signature still verifies.
    let intact = SoftwareEcdsaSignature::from_slice(&raw).unwrap();
    assert!(public_key.verify(&message, &intact));
}
