//! The end-to-end exercises of every engine: key agreement symmetry,
//! coordinate and serialization round trips, sign and verify, streaming
//! hashing against the one-shot digest, tag verification full and
//! truncated, and the key-derivation vector.

use soft_crypto::ecdh::{SoftwareEcdhPublicKey, SoftwareEcdhSecretKey};
use soft_crypto::ecdsa::SoftwareEcdsaSecretKey;
use soft_crypto::hkdf256::SoftwareHkdf256;
use soft_crypto::hmac256::SoftwareHmac256;
use soft_crypto::sha256::SoftwareSha256;
use soft_crypto::{EC_FIELD_SIZE, HMAC_KEY_SIZE, TRUNCATED_HMAC_SIZE};

#[test]
fn test_shared_secret_symmetric() {
    let private1 = SoftwareEcdhSecretKey::random();
    let private2 = SoftwareEcdhSecretKey::random();
    let pub1 = private1.public_key();
    let pub2 = private2.public_key();
    let shared1 = private1.diffie_hellman(&pub2);
    let shared2 = private2.diffie_hellman(&pub1);
    assert_eq!(shared1.raw_secret_bytes(), shared2.raw_secret_bytes());
}

#[test]
fn test_ecdh_public_key_from_to_bytes() {
    let first_key = SoftwareEcdhSecretKey::random();
    let first_public = first_key.public_key();
    let mut x = [0; EC_FIELD_SIZE];
    let mut y = [0; EC_FIELD_SIZE];
    first_public.to_coordinates(&mut x, &mut y);
    let new_public = SoftwareEcdhPublicKey::from_coordinates(&x, &y).unwrap();
    let mut new_x = [0; EC_FIELD_SIZE];
    let mut new_y = [0; EC_FIELD_SIZE];
    new_public.to_coordinates(&mut new_x, &mut new_y);
    assert_eq!(x, new_x);
    assert_eq!(y, new_y);
}

#[test]
fn test_sign_verify() {
    let private_key = SoftwareEcdsaSecretKey::random();
    let public_key = private_key.public_key();
    let message = [0x12, 0x34, 0x56, 0x78];
    let signature = private_key.sign(&message);
    assert!(public_key.verify(&message, &signature));
}

#[test]
fn test_ecdsa_secret_key_from_to_bytes() {
    let first_key = SoftwareEcdsaSecretKey::random();
    let mut key_bytes = [0; EC_FIELD_SIZE];
    first_key.to_slice(&mut key_bytes);
    let second_key = SoftwareEcdsaSecretKey::from_slice(&key_bytes).unwrap();
    let mut new_bytes = [0; EC_FIELD_SIZE];
    second_key.to_slice(&mut new_bytes);
    assert_eq!(key_bytes, new_bytes);
}

#[test]
fn test_sha256_hash_matches() {
    let data = [0x55; 16];
    let mut hasher = SoftwareSha256::new();
    hasher.update(&data);
    assert_eq!(SoftwareSha256::digest(&data), hasher.finalize());
}

#[test]
fn test_hmac256_verifies() {
    let key = [0xAA; HMAC_KEY_SIZE];
    let data = [0x55; 16];
    let mac = SoftwareHmac256::mac(&key, &data);
    assert!(SoftwareHmac256::verify(&key, &data, &mac));
    let truncated_mac = <&[u8; TRUNCATED_HMAC_SIZE]>::try_from(&mac[..TRUNCATED_HMAC_SIZE]).unwrap();
    assert!(SoftwareHmac256::verify_truncated_left(&key, &data, &truncated_mac));
}

#[test]
fn facade_binds_the_engines() {
    let one_shot =
        <soft_crypto::SoftwareCrypto as soft_crypto::Crypto>::Sha256::digest(b"facade");
    assert_eq!(one_shot, SoftwareSha256::digest(b"facade"));
    let key = [0x11; HMAC_KEY_SIZE];
    let tag = <soft_crypto::SoftwareCrypto as soft_crypto::Crypto>::Hmac256::mac(&key, b"facade");
    assert!(SoftwareHmac256::verify(&key, b"facade", &tag));
}

#[test]
fn test_hkdf_empty_salt_256_vector() {
    let okm = [
        0xf9, 0xbe, 0x72, 0x11, 0x6c, 0xb9, 0x7f, 0x41, 0x82, 0x82, 0x10, 0x28, 0x9c, 0xaa,
        0xfe, 0xab, 0xde, 0x1f, 0x3d, 0xfb, 0x97, 0x23, 0xbf, 0x43, 0x53, 0x8a, 0xb1, 0x8f,
        0x36, 0x66, 0x78, 0x3a,
    ];
    assert_eq!(&SoftwareHkdf256::hkdf_empty_salt_256(b"0", &[0]), &okm);
}
