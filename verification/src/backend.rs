//! The named results of the elliptic-curve backends.
//!
//! Key material crosses the trusted boundary as plain bytes: a private
//! key as its big-endian field-size scalar, a public key as its
//! compressed SEC1 point. Each curve's wrappers live in a submodule and
//! state their contracts over the names below; the curve argument of
//! every name is the position of the curve in the engine's fixed order
//! (NIST P-256 = 1, P-384 = 2, P-521 = 3, secp256k1 = 4, SM2 = 5).

pub mod k256;
pub mod p256;
pub mod p384;
pub mod p521;
pub mod sm2;

use vstd::prelude::*;

verus! {

/// Whether these bytes are a usable private scalar on the curve: the
/// field-element length, and a value in the scalar range that
/// `elliptic_curve::SecretKey::from_slice` accepts.
pub uninterp spec fn ec_scalar_ok(curve: int, scalar: Seq<u8>) -> bool;

/// Whether these bytes are a compressed-length SEC1 point on the
/// curve that `elliptic_curve::PublicKey::from_sec1_bytes` accepts.
pub uninterp spec fn ec_point_ok(curve: int, point: Seq<u8>) -> bool;

/// The scalar held by a PKCS8 DER private-key document, or `None` where
/// the document does not parse on this curve.
pub uninterp spec fn ec_priv_of_pkcs8(curve: int, der: Seq<u8>) -> Option<Seq<u8>>;

/// The scalar held by a SEC1 DER private-key document, or `None`.
pub uninterp spec fn ec_priv_of_sec1(curve: int, der: Seq<u8>) -> Option<Seq<u8>>;

/// The PKCS8 DER document encoding a private scalar.
pub uninterp spec fn ec_pkcs8_of_priv(curve: int, scalar: Seq<u8>) -> Seq<u8>;

/// The SEC1 DER document encoding a private scalar.
pub uninterp spec fn ec_sec1_of_priv(curve: int, scalar: Seq<u8>) -> Seq<u8>;

/// The compressed point held by an SPKI DER public-key document, or
/// `None` where the document does not parse on this curve.
pub uninterp spec fn ec_pub_of_spki(curve: int, der: Seq<u8>) -> Option<Seq<u8>>;

/// The SPKI DER document encoding a public point.
pub uninterp spec fn ec_spki_of_pub(curve: int, point: Seq<u8>) -> Seq<u8>;

/// The compressed public point of a private scalar.
pub uninterp spec fn ec_point_of(curve: int, scalar: Seq<u8>) -> Seq<u8>;

/// The Diffie-Hellman shared secret of a private scalar and a public
/// point: the x coordinate of the scalar multiple, as field bytes.
pub uninterp spec fn ec_ecdh(curve: int, scalar: Seq<u8>, point: Seq<u8>) -> Seq<u8>;

} // verus!
