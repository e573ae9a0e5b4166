//! A cryptographic operations engine: symmetric encryption (AES in ECB, CBC
//! and GCM modes), hybrid public-key encryption (ECIES over the NIST, SECP
//! and SM2 curves and over Curve25519), key-derivation functions (HKDF,
//! concatenation KDF, PBKDF2, scrypt) and a key codec that transcodes
//! asymmetric key material among the PKCS8, PKCS1, SEC1 and SPKI containers
//! and between the DER and PEM serializations.
//!
//! The engine is a pure, call-and-return library over byte buffers: callers
//! hand in raw bytes (or text in a chosen encoding) and receive raw bytes
//! back. Calls into the underlying cryptographic crates stand behind small
//! trusted wrappers; everything around them is verified.

pub mod aes;
pub mod backend;
pub mod codec;
pub mod common;
pub mod crypto;
pub mod ecc;
pub mod ecies;
pub mod edwards;
pub mod enums;
pub mod errors;
pub mod jwt;
pub mod kdf;
pub mod padding;
pub mod pem;
pub mod rsa_keys;
pub mod utils;
