//! Trusted wrappers around the NIST P-521 backend.
//!
//! Every wrapper moves plain bytes: a private key as its 66-byte
//! scalar, a public key as its 67-byte compressed SEC1 point. The
//! contracts stand over the shared names of `crate::backend` with the
//! curve argument fixed to 3.

use elliptic_curve::sec1::ToEncodedPoint;
use vstd::prelude::*;

use crate::backend::{ec_ecdh, ec_pkcs8_of_priv, ec_point_of, ec_point_ok, ec_priv_of_pkcs8,
    ec_priv_of_sec1, ec_pub_of_spki, ec_scalar_ok, ec_sec1_of_priv, ec_spki_of_pub};

verus! {

/// Relies on `pkcs8::DecodePrivateKey::from_pkcs8_der` for
/// `elliptic_curve::SecretKey<p521::NistP521>`: parses a PKCS8 document and hands
/// back the scalar it holds.
#[verifier::external_body]
pub(crate) fn priv_from_pkcs8_der(der: &[u8]) -> (r: Option<Vec<u8>>)
    ensures
        r matches Some(v) ==> ec_priv_of_pkcs8(3, der@) == Some(v@) && v@.len() == 66
            && ec_scalar_ok(3, v@),
        r is Some <==> ec_priv_of_pkcs8(3, der@) is Some,
{
    let k = <elliptic_curve::SecretKey<p521::NistP521> as pkcs8::DecodePrivateKey>::from_pkcs8_der(
        der,
    ).ok()?;
    Some(k.to_bytes().to_vec())
}

/// Relies on `sec1::DecodeEcPrivateKey::from_sec1_der` for
/// `elliptic_curve::SecretKey<p521::NistP521>`.
#[verifier::external_body]
pub(crate) fn priv_from_sec1_der(der: &[u8]) -> (r: Option<Vec<u8>>)
    ensures
        r matches Some(v) ==> ec_priv_of_sec1(3, der@) == Some(v@) && v@.len() == 66
            && ec_scalar_ok(3, v@),
        r is Some <==> ec_priv_of_sec1(3, der@) is Some,
{
    let k = <elliptic_curve::SecretKey<p521::NistP521> as sec1::DecodeEcPrivateKey>::from_sec1_der(
        der,
    ).ok()?;
    Some(k.to_bytes().to_vec())
}

/// Relies on `pkcs8::EncodePrivateKey::to_pkcs8_der` for
/// `elliptic_curve::SecretKey<p521::NistP521>`: the canonical PKCS8 document of a
/// scalar, which parses back to that scalar. Only full field-size
/// scalars are taken: `from_slice` zero-pads shorter ones, which would
/// alias two inputs onto one document.
#[verifier::external_body]
pub(crate) fn priv_to_pkcs8_der(scalar: &[u8]) -> (r: Option<Vec<u8>>)
    requires
        scalar@.len() == 66,
    ensures
        r matches Some(v) ==> v@ == ec_pkcs8_of_priv(3, scalar@) && ec_priv_of_pkcs8(
            3,
            v@,
        ) == Some(scalar@),
        r is Some <==> ec_scalar_ok(3, scalar@),
{
    let k = elliptic_curve::SecretKey::<p521::NistP521>::from_slice(scalar).ok()?;
    let d = pkcs8::EncodePrivateKey::to_pkcs8_der(&k).ok()?;
    Some(d.as_bytes().to_vec())
}

/// Relies on `sec1::EncodeEcPrivateKey::to_sec1_der` for
/// `elliptic_curve::SecretKey<p521::NistP521>`: the canonical SEC1 document of a
/// scalar, which parses back to that scalar. Only full field-size
/// scalars are taken, for the same aliasing reason as the PKCS8 form.
#[verifier::external_body]
pub(crate) fn priv_to_sec1_der(scalar: &[u8]) -> (r: Option<Vec<u8>>)
    requires
        scalar@.len() == 66,
    ensures
        r matches Some(v) ==> v@ == ec_sec1_of_priv(3, scalar@) && ec_priv_of_sec1(
            3,
            v@,
        ) == Some(scalar@),
        r is Some <==> ec_scalar_ok(3, scalar@),
{
    let k = elliptic_curve::SecretKey::<p521::NistP521>::from_slice(scalar).ok()?;
    let d = sec1::EncodeEcPrivateKey::to_sec1_der(&k).ok()?;
    Some(d.as_bytes().to_vec())
}

/// Relies on `spki::DecodePublicKey::from_public_key_der` for
/// `elliptic_curve::PublicKey<p521::NistP521>`: parses an SPKI document and hands
/// back the point it holds, in compressed form.
#[verifier::external_body]
pub(crate) fn pub_from_spki_der(der: &[u8]) -> (r: Option<Vec<u8>>)
    ensures
        r matches Some(v) ==> ec_pub_of_spki(3, der@) == Some(v@) && v@.len() == 67
            && ec_point_ok(3, v@),
        r is Some <==> ec_pub_of_spki(3, der@) is Some,
{
    let k = <elliptic_curve::PublicKey<p521::NistP521> as spki::DecodePublicKey>::from_public_key_der(
        der,
    ).ok()?;
    Some(k.to_encoded_point(true).as_bytes().to_vec())
}

/// Relies on `spki::EncodePublicKey::to_public_key_der` for
/// `elliptic_curve::PublicKey<p521::NistP521>`: the canonical SPKI document of a
/// point, which parses back to that point. Only compressed-length
/// points are taken: `from_sec1_bytes` also accepts the uncompressed
/// form, which would alias two inputs onto one document.
#[verifier::external_body]
pub(crate) fn pub_to_spki_der(point: &[u8]) -> (r: Option<Vec<u8>>)
    requires
        point@.len() == 67,
    ensures
        r matches Some(v) ==> v@ == ec_spki_of_pub(3, point@) && ec_pub_of_spki(
            3,
            v@,
        ) == Some(point@),
        r is Some <==> ec_point_ok(3, point@),
{
    let k = elliptic_curve::PublicKey::<p521::NistP521>::from_sec1_bytes(point).ok()?;
    let d = spki::EncodePublicKey::to_public_key_der(&k).ok()?;
    Some(d.to_vec())
}

/// Relies on `elliptic_curve::SecretKey::<p521::NistP521>::random`: a fresh key
/// pair; nothing is promised of the draw beyond well-formedness.
#[verifier::external_body]
pub(crate) fn generate() -> (r: (Vec<u8>, Vec<u8>))
    ensures
        ec_scalar_ok(3, r.0@),
        r.0@.len() == 66,
        r.1@ == ec_point_of(3, r.0@),
        r.1@.len() == 67,
        ec_point_ok(3, r.1@),
{
    let sk = elliptic_curve::SecretKey::<p521::NistP521>::random(&mut rand::thread_rng());
    let point = sk.public_key().to_encoded_point(true);
    (sk.to_bytes().to_vec(), point.as_bytes().to_vec())
}

/// Relies on `elliptic_curve::SecretKey::public_key` for `p521::NistP521`: the
/// compressed public point of a scalar.
#[verifier::external_body]
pub(crate) fn point_of_priv(scalar: &[u8]) -> (r: Vec<u8>)
    requires
        ec_scalar_ok(3, scalar@),
    ensures
        r@ == ec_point_of(3, scalar@),
        r@.len() == 67,
        ec_point_ok(3, r@),
{
    let sk = elliptic_curve::SecretKey::<p521::NistP521>::from_slice(scalar).expect("scalar is usable");
    sk.public_key().to_encoded_point(true).as_bytes().to_vec()
}

/// Relies on `elliptic_curve::ecdh::diffie_hellman` for `p521::NistP521`: both
/// parties of an exchange compute the same secret, so the result also
/// equals the exchange run from the other side.
#[verifier::external_body]
pub(crate) fn ecdh(scalar: &[u8], point: &[u8]) -> (r: Option<Vec<u8>>)
    requires
        ec_scalar_ok(3, scalar@),
    ensures
        r matches Some(ss) ==> ss@ == ec_ecdh(3, scalar@, point@) && ss@.len() == 66 && (
        forall|s2: Seq<u8>|
            ec_scalar_ok(3, s2) && point@ == ec_point_of(3, s2) ==> ec_ecdh(
                3,
                scalar@,
                point@,
            ) == ec_ecdh(3, s2, ec_point_of(3, scalar@))),
        r is Some <==> ec_point_ok(3, point@),
{
    let sk = elliptic_curve::SecretKey::<p521::NistP521>::from_slice(scalar).ok()?;
    let pk = elliptic_curve::PublicKey::<p521::NistP521>::from_sec1_bytes(point).ok()?;
    let ss = elliptic_curve::ecdh::diffie_hellman(sk.to_nonzero_scalar(), pk.as_affine());
    Some(ss.raw_secret_bytes().to_vec())
}

} // verus!
