[package]
name = "soft_crypto"
version = "0.1.0"
edition = "2021"
publish = false

[dependencies]
p256 = { version = "0.13", features = ["ecdh"] }
sha2 = "0.10"
hmac = "0.12"
hkdf = "0.12"
rand_core = { version = "0.6", features = ["getrandom"] }
