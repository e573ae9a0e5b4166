//! Curve25519: Ed25519 key material, its X25519 Montgomery form, and
//! the ECIES construction over it.
//!
//! A private key crosses the trusted boundary as its 32-byte seed, a
//! public key as its 32-byte Edwards point encoding. The family knows
//! only the PKCS8 container (and SPKI for public keys); the KDF step of
//! its ECIES construction is fixed: PBKDF2-SHA-512 over the shared
//! secret with the engine's fixed salt.

use vstd::prelude::*;
use vstd::string::StringSliceAdditionalSpecFns;

use crate::aes::{aes_gcm_seal, encrypt_or_decrypt_aes, gcm_opened};
use crate::codec::{spec_decode, spec_encode, spec_encode_ok};
use crate::common::KeyTuple;
use crate::crypto::{str_bytes, EncryptionDto};
use crate::ecc::{LABEL_PKCS8, LABEL_SPKI};
use crate::enums::{AesEncryptionPadding, Digest, EciesEncryptionAlgorithm, EdwardsCurveName,
    EncryptionMode, KeyFormat, TextEncoding};
use crate::errors::Error;
use crate::kdf::{pbkdf2_of, run_pbkdf2, ECIES_KDF_SALT, ECIES_PBKDF2_ROUNDS};
use crate::pem::{pem_decode, pem_encode, pem_of, pem_opened};

verus! {

/// Whether these bytes are an Edwards point that
/// `ed25519_dalek::VerifyingKey::from_bytes` accepts.
pub uninterp spec fn ed_pub_ok(point: Seq<u8>) -> bool;

/// The seed held by a PKCS8 DER Ed25519 private-key document.
pub uninterp spec fn ed_priv_of_pkcs8(der: Seq<u8>) -> Option<Seq<u8>>;

/// The PKCS8 DER document encoding an Ed25519 seed.
pub uninterp spec fn ed_pkcs8_of_priv(seed: Seq<u8>) -> Seq<u8>;

/// The Edwards point held by an SPKI DER public-key document.
pub uninterp spec fn ed_pub_of_spki(der: Seq<u8>) -> Option<Seq<u8>>;

/// The SPKI DER document encoding an Edwards point.
pub uninterp spec fn ed_spki_of_pub(point: Seq<u8>) -> Seq<u8>;

/// The Edwards public point of a seed.
pub uninterp spec fn ed_point_of(seed: Seq<u8>) -> Seq<u8>;

/// The Montgomery form of an Edwards point.
pub uninterp spec fn ed_mont_of(point: Seq<u8>) -> Seq<u8>;

/// The X25519 scalar a signing key expands its seed to.
pub uninterp spec fn ed_x_scalar_of(seed: Seq<u8>) -> Seq<u8>;

/// The X25519 public point of a scalar.
pub uninterp spec fn x25519_point_of(scalar: Seq<u8>) -> Seq<u8>;

/// The X25519 shared secret of a scalar and a point.
pub uninterp spec fn x25519_shared(scalar: Seq<u8>, point: Seq<u8>) -> Seq<u8>;

// ---------------------------------------------------------------------------
// Trusted wrappers.
// ---------------------------------------------------------------------------

/// Relies on `ed25519_dalek::SigningKey::generate`: a fresh key pair;
/// nothing is promised of the draw beyond well-formedness.
#[verifier::external_body]
pub(crate) fn ed_generate() -> (r: (Vec<u8>, Vec<u8>))
    ensures
        r.0@.len() == 32,
        r.1@ == ed_point_of(r.0@),
        r.1@.len() == 32,
        ed_pub_ok(r.1@),
{
    let sk = ed25519_dalek::SigningKey::generate(&mut rand::thread_rng());
    let pk = sk.verifying_key();
    (sk.to_bytes().to_vec(), pk.to_bytes().to_vec())
}

/// Relies on `pkcs8::DecodePrivateKey::from_pkcs8_der` for
/// `ed25519_dalek::SigningKey`.
#[verifier::external_body]
pub(crate) fn ed_priv_from_pkcs8_der(der: &[u8]) -> (r: Option<Vec<u8>>)
    ensures
        r matches Some(v) ==> ed_priv_of_pkcs8(der@) == Some(v@) && v@.len() == 32,
        r is Some <==> ed_priv_of_pkcs8(der@) is Some,
{
    let k = <ed25519_dalek::SigningKey as pkcs8::DecodePrivateKey>::from_pkcs8_der(der).ok()?;
    Some(k.to_bytes().to_vec())
}

/// Relies on `pkcs8::EncodePrivateKey::to_pkcs8_der` for
/// `ed25519_dalek::SigningKey`: the canonical PKCS8 document of a seed,
/// which parses back to that seed.
#[verifier::external_body]
pub(crate) fn ed_priv_to_pkcs8_der(seed: &[u8]) -> (r: Vec<u8>)
    requires
        seed@.len() == 32,
    ensures
        r@ == ed_pkcs8_of_priv(seed@),
        ed_priv_of_pkcs8(r@) == Some(seed@),
{
    let mut raw = [0u8; 32];
    raw.copy_from_slice(seed);
    let k = ed25519_dalek::SigningKey::from_bytes(&raw);
    let d = pkcs8::EncodePrivateKey::to_pkcs8_der(&k).expect("seed encodes");
    d.as_bytes().to_vec()
}

/// Relies on `spki::DecodePublicKey::from_public_key_der` for
/// `ed25519_dalek::VerifyingKey`.
#[verifier::external_body]
pub(crate) fn ed_pub_from_spki_der(der: &[u8]) -> (r: Option<Vec<u8>>)
    ensures
        r matches Some(v) ==> ed_pub_of_spki(der@) == Some(v@) && v@.len() == 32 && ed_pub_ok(v@),
        r is Some <==> ed_pub_of_spki(der@) is Some,
{
    let k = <ed25519_dalek::VerifyingKey as spki::DecodePublicKey>::from_public_key_der(
        der,
    ).ok()?;
    Some(k.to_bytes().to_vec())
}

/// Relies on `spki::EncodePublicKey::to_public_key_der` for
/// `ed25519_dalek::VerifyingKey`: the canonical SPKI document of a
/// point, which parses back to that point.
#[verifier::external_body]
pub(crate) fn ed_pub_to_spki_der(point: &[u8]) -> (r: Option<Vec<u8>>)
    ensures
        r matches Some(v) ==> v@ == ed_spki_of_pub(point@) && ed_pub_of_spki(v@) == Some(point@),
        r is Some <==> (point@.len() == 32 && ed_pub_ok(point@)),
{
    let raw: [u8; 32] = point.try_into().ok()?;
    let k = ed25519_dalek::VerifyingKey::from_bytes(&raw).ok()?;
    let d = spki::EncodePublicKey::to_public_key_der(&k).ok()?;
    Some(d.to_vec())
}

/// Relies on `ed25519_dalek::SigningKey::verifying_key`: the public
/// point of a seed.
#[verifier::external_body]
pub(crate) fn ed_public_of_priv(seed: &[u8]) -> (r: Vec<u8>)
    requires
        seed@.len() == 32,
    ensures
        r@ == ed_point_of(seed@),
        r@.len() == 32,
        ed_pub_ok(r@),
{
    let mut raw = [0u8; 32];
    raw.copy_from_slice(seed);
    let sk = ed25519_dalek::SigningKey::from_bytes(&raw);
    sk.verifying_key().to_bytes().to_vec()
}

/// Relies on `ed25519_dalek::VerifyingKey::to_montgomery`: the
/// birational Montgomery form of an Edwards point.
#[verifier::external_body]
pub(crate) fn ed_to_montgomery(point: &[u8]) -> (r: Option<Vec<u8>>)
    ensures
        r matches Some(v) ==> v@ == ed_mont_of(point@) && v@.len() == 32,
        r is Some <==> (point@.len() == 32 && ed_pub_ok(point@)),
{
    let raw: [u8; 32] = point.try_into().ok()?;
    let k = ed25519_dalek::VerifyingKey::from_bytes(&raw).ok()?;
    Some(k.to_montgomery().to_bytes().to_vec())
}

/// Relies on `ed25519_dalek::SigningKey::to_scalar_bytes`: the X25519
/// scalar of a seed, whose X25519 public point is the Montgomery form
/// of the seed's Edwards point.
#[verifier::external_body]
pub(crate) fn ed_x25519_scalar(seed: &[u8]) -> (r: Vec<u8>)
    requires
        seed@.len() == 32,
    ensures
        r@ == ed_x_scalar_of(seed@),
        r@.len() == 32,
        x25519_point_of(r@) == ed_mont_of(ed_point_of(seed@)),
{
    let mut raw = [0u8; 32];
    raw.copy_from_slice(seed);
    let sk = ed25519_dalek::SigningKey::from_bytes(&raw);
    sk.to_scalar_bytes().to_vec()
}

/// Relies on `x25519_dalek::StaticSecret::random_from_rng`: a fresh
/// X25519 key pair; nothing is promised of the draw beyond
/// well-formedness.
#[verifier::external_body]
pub(crate) fn x25519_generate() -> (r: (Vec<u8>, Vec<u8>))
    ensures
        r.0@.len() == 32,
        r.1@ == x25519_point_of(r.0@),
        r.1@.len() == 32,
{
    let sk = x25519_dalek::StaticSecret::random_from_rng(rand::thread_rng());
    let pk = x25519_dalek::PublicKey::from(&sk);
    (sk.to_bytes().to_vec(), pk.as_bytes().to_vec())
}

/// Relies on `x25519_dalek::StaticSecret::diffie_hellman`: both parties
/// of an exchange compute the same secret, so the result also equals
/// the exchange run from the other side.
#[verifier::external_body]
pub(crate) fn x25519_shared_secret(scalar: &[u8], point: &[u8]) -> (r: Vec<u8>)
    requires
        scalar@.len() == 32,
        point@.len() == 32,
    ensures
        r@ == x25519_shared(scalar@, point@),
        r@.len() == 32,
        forall|s2: Seq<u8>|
            s2.len() == 32 && point@ == x25519_point_of(s2) ==> r@ == x25519_shared(
                s2,
                x25519_point_of(scalar@),
            ),
{
    let mut raw_s = [0u8; 32];
    raw_s.copy_from_slice(scalar);
    let mut raw_p = [0u8; 32];
    raw_p.copy_from_slice(point);
    let sk = x25519_dalek::StaticSecret::from(raw_s);
    let pk = x25519_dalek::PublicKey::from(raw_p);
    sk.diffie_hellman(&pk).as_bytes().to_vec()
}

// ---------------------------------------------------------------------------
// Import and export.
// ---------------------------------------------------------------------------

/// The seed a serialized Curve25519 private key holds: the family
/// knows only the PKCS8 container.
pub open spec fn spec_ed_priv_import(format: KeyFormat, data: Seq<u8>) -> Option<Seq<u8>> {
    match format {
        KeyFormat::Der => ed_priv_of_pkcs8(data),
        KeyFormat::Pem => match pem_opened(LABEL_PKCS8@, data) {
            Some(der) => ed_priv_of_pkcs8(der),
            None => None,
        },
    }
}

/// The serialized PKCS8 form of a seed.
pub open spec fn spec_ed_priv_export(format: KeyFormat, seed: Seq<u8>) -> Seq<u8> {
    match format {
        KeyFormat::Der => ed_pkcs8_of_priv(seed),
        KeyFormat::Pem => pem_of(LABEL_PKCS8@, ed_pkcs8_of_priv(seed)),
    }
}

/// The Edwards point a serialized SPKI public key holds.
pub open spec fn spec_ed_pub_import(format: KeyFormat, data: Seq<u8>) -> Option<Seq<u8>> {
    match format {
        KeyFormat::Der => ed_pub_of_spki(data),
        KeyFormat::Pem => match pem_opened(LABEL_SPKI@, data) {
            Some(der) => ed_pub_of_spki(der),
            None => None,
        },
    }
}

/// The serialized SPKI form of an Edwards point.
pub open spec fn spec_ed_pub_export(format: KeyFormat, point: Seq<u8>) -> Seq<u8> {
    match format {
        KeyFormat::Der => ed_spki_of_pub(point),
        KeyFormat::Pem => pem_of(LABEL_SPKI@, ed_spki_of_pub(point)),
    }
}

/// Import a Curve25519 private key, handing back its seed.
pub fn import_curve_25519_private_key(input: &[u8], format: KeyFormat) -> (r: Result<
    Vec<u8>,
    Error,
>)
    ensures
        r matches Ok(v) ==> spec_ed_priv_import(format, input@) == Some(v@) && v@.len() == 32,
        r is Ok <==> spec_ed_priv_import(format, input@) is Some,
{
    let parsed = match format {
        KeyFormat::Der => ed_priv_from_pkcs8_der(input),
        KeyFormat::Pem => {
            let der = pem_decode(input, LABEL_PKCS8.as_slice())?;
            ed_priv_from_pkcs8_der(der.as_slice())
        },
    };
    match parsed {
        Some(v) => Ok(v),
        None => Err(Error::Format(String::from_str("not an ed25519 private key"))),
    }
}

/// Export a Curve25519 seed as a PKCS8 document. Re-importing the
/// result gives the seed back.
pub fn export_curve_25519_private_key(seed: &[u8], format: KeyFormat) -> (r: Vec<u8>)
    requires
        seed@.len() == 32,
    ensures
        r@ == spec_ed_priv_export(format, seed@),
        spec_ed_priv_import(format, r@) == Some(seed@),
{
    let der = ed_priv_to_pkcs8_der(seed);
    match format {
        KeyFormat::Der => der,
        KeyFormat::Pem => pem_encode(LABEL_PKCS8.as_slice(), der.as_slice()),
    }
}

/// Import a Curve25519 public key, handing back its Edwards point.
pub fn import_curve_25519_public_key(input: &[u8], format: KeyFormat) -> (r: Result<Vec<u8>, Error>)
    ensures
        r matches Ok(v) ==> spec_ed_pub_import(format, input@) == Some(v@) && v@.len() == 32
            && ed_pub_ok(v@),
        r is Ok <==> spec_ed_pub_import(format, input@) is Some,
{
    let parsed = match format {
        KeyFormat::Der => ed_pub_from_spki_der(input),
        KeyFormat::Pem => {
            let der = pem_decode(input, LABEL_SPKI.as_slice())?;
            ed_pub_from_spki_der(der.as_slice())
        },
    };
    match parsed {
        Some(v) => Ok(v),
        None => Err(Error::Format(String::from_str("not an ed25519 public key"))),
    }
}

/// Export an Edwards point as an SPKI document. Re-importing the
/// result gives the point back.
pub fn export_curve_25519_public_key(point: &[u8], format: KeyFormat) -> (r: Result<Vec<u8>, Error>)
    ensures
        r matches Ok(v) ==> v@ == spec_ed_pub_export(format, point@) && spec_ed_pub_import(
            format,
            v@,
        ) == Some(point@),
        r is Ok <==> point@.len() == 32 && ed_pub_ok(point@),
{
    let der = match ed_pub_to_spki_der(point) {
        Some(v) => v,
        None => {
            return Err(Error::Format(String::from_str("not an edwards point")));
        },
    };
    match format {
        KeyFormat::Der => Ok(der),
        KeyFormat::Pem => Ok(pem_encode(LABEL_SPKI.as_slice(), der.as_slice())),
    }
}

/// Derive the public half of a Curve25519 private key, in the same
/// serialization.
pub fn derive_curve_25519(input: &[u8], format: KeyFormat) -> (r: Result<Vec<u8>, Error>)
    ensures
        r matches Ok(v) ==> (spec_ed_priv_import(format, input@) matches Some(seed) && v@
            == spec_ed_pub_export(format, ed_point_of(seed))),
        r is Ok <==> spec_ed_priv_import(format, input@) is Some,
{
    let seed = import_curve_25519_private_key(input, format)?;
    let point = ed_public_of_priv(seed.as_slice());
    export_curve_25519_public_key(point.as_slice(), format)
}

// ---------------------------------------------------------------------------
// ECIES over Curve25519.
// ---------------------------------------------------------------------------

/// The sealed part of a Curve25519 ECIES envelope for an ephemeral
/// X25519 scalar, a recipient Montgomery point and a payload: the
/// shared secret is expanded by PBKDF2-SHA-512 under the engine's
/// fixed salt and round count.
pub open spec fn spec_ed_ecies_sealed(e: Seq<u8>, mont: Seq<u8>, pt: Seq<u8>) -> Seq<u8> {
    let ss = x25519_shared(e, mont);
    let okm = pbkdf2_of(4, ss, ECIES_KDF_SALT@, 210000, 44);
    aes_gcm_seal(okm.take(32), okm.skip(32), Seq::empty(), pt)
}

/// Whether a byte string has the documented Curve25519 envelope
/// shape: a length prefix of 32 followed by at least 32 point bytes.
pub open spec fn spec_ed_envelope_shaped(data: Seq<u8>) -> bool {
    data.len() >= 33 && data[0] == 32u8
}

/// The plaintext a Curve25519 ECIES envelope opens to under a seed.
pub open spec fn spec_ed_ecies_plaintext(seed: Seq<u8>, data: Seq<u8>) -> Option<Seq<u8>> {
    if data.len() < 33 || data[0] != 32u8 {
        None
    } else {
        let ep = data.subrange(1, 33);
        let ss = x25519_shared(ed_x_scalar_of(seed), ep);
        let okm = pbkdf2_of(4, ss, ECIES_KDF_SALT@, 210000, 44);
        gcm_opened(okm.take(32), okm.skip(32), Seq::empty(), data.skip(33))
    }
}

/// Encrypt a payload to a Curve25519 public key. The result is the
/// documented envelope for some fresh ephemeral scalar, and opening
/// it under any seed whose Edwards point is the recipient key gives
/// the payload back, given the scalar-expansion facts the backend
/// states of every seed it expands.
pub fn curve_25519_ecies_encrypt(input: &[u8], key: &[u8], format: KeyFormat) -> (r: Result<
    Vec<u8>,
    Error,
>)
    ensures
        r matches Ok(v) ==> (spec_ed_pub_import(format, key@) matches Some(pubkey)
            && exists|e: Seq<u8>|
            {
                &&& #[trigger] e.len() == 32
                &&& v@ == seq![32u8] + x25519_point_of(e) + spec_ed_ecies_sealed(
                    e,
                    ed_mont_of(pubkey),
                    input@,
                )
                &&& forall|s2: Seq<u8>|
                    s2.len() == 32 && ed_mont_of(pubkey) == x25519_point_of(s2) ==> x25519_shared(
                        e,
                        ed_mont_of(pubkey),
                    ) == x25519_shared(s2, x25519_point_of(e))
            }),
        spec_ed_pub_import(format, key@) is None ==> r is Err,
        r is Err ==> spec_ed_pub_import(format, key@) is None || input@.len() >= 0x1000000000,
        spec_ed_pub_import(format, key@) is Some && input@.len() < 0x1000000000 ==> r is Ok,
        r matches Ok(v) ==> (forall|seed: Seq<u8>|
            ed_x_scalar_of(seed).len() == 32 && x25519_point_of(ed_x_scalar_of(seed)) == ed_mont_of(
                ed_point_of(seed),
            ) && spec_ed_pub_import(format, key@) == Some(ed_point_of(seed))
                ==> spec_ed_ecies_plaintext(seed, v@) == Some(input@)),
{
    let pubkey = import_curve_25519_public_key(key, format)?;
    if input.len() as u64 >= 0x1000000000u64 {
        return Err(Error::Validation(String::from_str("payload too long")));
    }
    let mont = match ed_to_montgomery(pubkey.as_slice()) {
        Some(v) => v,
        None => {
            return Err(Error::CryptoFailed);
        },
    };
    let (e, ep) = x25519_generate();
    let ss = x25519_shared_secret(e.as_slice(), mont.as_slice());
    let okm = run_pbkdf2(
        Digest::Sha512,
        ss.as_slice(),
        ECIES_KDF_SALT.as_slice(),
        ECIES_PBKDF2_ROUNDS,
        44,
    );
    let okm_key = vstd::slice::slice_subrange(okm.as_slice(), 0, 32);
    let nonce = vstd::slice::slice_subrange(okm.as_slice(), 32, 44);
    let sealed = encrypt_or_decrypt_aes(
        EncryptionMode::Gcm,
        input,
        okm_key,
        Some(vstd::slice::slice_to_vec(nonce)),
        None,
        AesEncryptionPadding::NoPadding,
        true,
    )?;
    let mut out: Vec<u8> = Vec::new();
    out.push(32);
    out.extend_from_slice(ep.as_slice());
    out.extend_from_slice(sealed.as_slice());
    proof {
        assert(okm@.take(32) =~= okm_key@);
        assert(okm@.skip(32) =~= nonce@);
        assert(out@ =~= seq![32u8] + ep@ + sealed@);
        assert(sealed@ == spec_ed_ecies_sealed(e@, mont@, input@));
        assert forall|seed: Seq<u8>|
            ed_x_scalar_of(seed).len() == 32 && x25519_point_of(ed_x_scalar_of(seed)) == ed_mont_of(
                ed_point_of(seed),
            ) && spec_ed_pub_import(format, key@) == Some(ed_point_of(seed))
                implies spec_ed_ecies_plaintext(seed, out@) == Some(input@) by {
            assert(pubkey@ == ed_point_of(seed));
            assert(mont@ == ed_mont_of(ed_point_of(seed)));
            assert(out@.len() == 33 + sealed@.len());
            assert(out@[0] == 32u8);
            assert(out@.subrange(1, 33) =~= ep@);
            assert(out@.skip(33) =~= sealed@);
            assert(x25519_shared(ed_x_scalar_of(seed), ep@) == x25519_shared(e@, mont@));
            assert(gcm_opened(okm@.take(32), okm@.skip(32), Seq::empty(), sealed@) == Some(
                input@,
            ));
        };
    }
    Ok(out)
}

/// Decrypt a Curve25519 ECIES envelope with the recipient's private
/// key. Success is owed exactly on envelopes whose sealed part is a
/// sealing under the recomputed key material. A malformed envelope is
/// a format error; on a well-shaped envelope a wrong key and a
/// tampered ciphertext end in the same closed failure.
pub fn curve_25519_ecies_decrypt(input: &[u8], key: &[u8], format: KeyFormat) -> (r: Result<
    Vec<u8>,
    Error,
>)
    ensures
        r matches Ok(p) ==> (spec_ed_priv_import(format, key@) matches Some(seed)
            && spec_ed_ecies_plaintext(seed, input@) == Some(p@)),
        (spec_ed_priv_import(format, key@) matches Some(seed) && spec_ed_ecies_plaintext(
            seed,
            input@,
        ) is Some) ==> r is Ok,
        spec_ed_priv_import(format, key@) is Some && !spec_ed_envelope_shaped(input@) ==> (
        r matches Err(e) && e is Format),
        (spec_ed_priv_import(format, key@) matches Some(seed) && spec_ed_envelope_shaped(input@)
            && spec_ed_ecies_plaintext(seed, input@) is None) ==> (r matches Err(e)
            && e is CryptoFailed),
{
    let seed = import_curve_25519_private_key(key, format)?;
    if input.len() < 33 || input[0] != 32 {
        return Err(Error::Format(String::from_str("malformed envelope")));
    }
    let ep = vstd::slice::slice_subrange(input, 1, 33);
    let ct = vstd::slice::slice_subrange(input, 33, input.len());
    let x = ed_x25519_scalar(seed.as_slice());
    let ss = x25519_shared_secret(x.as_slice(), ep);
    let okm = run_pbkdf2(
        Digest::Sha512,
        ss.as_slice(),
        ECIES_KDF_SALT.as_slice(),
        ECIES_PBKDF2_ROUNDS,
        44,
    );
    let okm_key = vstd::slice::slice_subrange(okm.as_slice(), 0, 32);
    let nonce = vstd::slice::slice_subrange(okm.as_slice(), 32, 44);
    let opened = encrypt_or_decrypt_aes(
        EncryptionMode::Gcm,
        ct,
        okm_key,
        Some(vstd::slice::slice_to_vec(nonce)),
        None,
        AesEncryptionPadding::NoPadding,
        false,
    );
    match opened {
        Ok(p) => {
            proof {
                assert(okm@.take(32) =~= okm_key@);
                assert(okm@.skip(32) =~= nonce@);
                assert(input@.subrange(1, 33) =~= ep@);
                assert(input@.skip(33) =~= ct@);
            }
            Ok(p)
        },
        Err(_) => Err(Error::CryptoFailed),
    }
}

/// Run one Curve25519 ECIES operation in the direction the caller
/// names.
pub fn curve_25519_ecies(
    input: &[u8],
    key: &[u8],
    format: KeyFormat,
    alg: EciesEncryptionAlgorithm,
    for_encryption: bool,
) -> (r: Result<Vec<u8>, Error>)
    ensures
        for_encryption ==> (r matches Ok(v) ==> (spec_ed_pub_import(format, key@) matches Some(
            pubkey,
        ) && exists|e: Seq<u8>|
            {
                &&& #[trigger] e.len() == 32
                &&& v@ == seq![32u8] + x25519_point_of(e) + spec_ed_ecies_sealed(
                    e,
                    ed_mont_of(pubkey),
                    input@,
                )
            })),
        for_encryption ==> (r matches Ok(v) ==> (forall|seed: Seq<u8>|
            ed_x_scalar_of(seed).len() == 32 && x25519_point_of(ed_x_scalar_of(seed)) == ed_mont_of(
                ed_point_of(seed),
            ) && spec_ed_pub_import(format, key@) == Some(ed_point_of(seed))
                ==> spec_ed_ecies_plaintext(seed, v@) == Some(input@))),
        for_encryption && spec_ed_pub_import(format, key@) is Some && input@.len() < 0x1000000000
            ==> r is Ok,
        !for_encryption ==> (r matches Ok(p) ==> (spec_ed_priv_import(format, key@) matches Some(
            seed,
        ) && spec_ed_ecies_plaintext(seed, input@) == Some(p@))),
        !for_encryption ==> ((spec_ed_priv_import(format, key@) matches Some(seed)
            && spec_ed_ecies_plaintext(seed, input@) is Some) ==> r is Ok),
{
    match alg {
        EciesEncryptionAlgorithm::AesGcm => {
            if for_encryption {
                curve_25519_ecies_encrypt(input, key, format)
            } else {
                curve_25519_ecies_decrypt(input, key, format)
            }
        },
    }
}

// ---------------------------------------------------------------------------
// The request boundary.
// ---------------------------------------------------------------------------

/// A Curve25519 ECIES request: the payload and counterpart key as
/// text, the key's serialization and the direction to run.
pub struct EciesEdwardsDto {
    pub input: String,
    pub input_encoding: TextEncoding,
    pub key: String,
    pub key_encoding: TextEncoding,
    pub output_encoding: TextEncoding,
    pub curve_name: EdwardsCurveName,
    pub format: KeyFormat,
    pub encryption_alg: EciesEncryptionAlgorithm,
    pub for_encryption: bool,
}

impl EciesEdwardsDto {
    /// The payload bytes of the request.
    pub fn input_bytes(&self) -> (r: Result<Vec<u8>, Error>)
        ensures
            r matches Ok(v) ==> spec_decode(self.input_encoding, str_bytes(self.input@)) == Some(
                v@,
            ),
            r is Ok <==> spec_decode(self.input_encoding, str_bytes(self.input@)) is Some,
    {
        self.input_encoding.decode(self.input.as_str())
    }

    /// The key bytes of the request.
    pub fn key_bytes(&self) -> (r: Result<Vec<u8>, Error>)
        ensures
            r matches Ok(v) ==> spec_decode(self.key_encoding, str_bytes(self.key@)) == Some(v@),
            r is Ok <==> spec_decode(self.key_encoding, str_bytes(self.key@)) is Some,
    {
        self.key_encoding.decode(self.key.as_str())
    }
}

impl EncryptionDto for EciesEdwardsDto {
    fn get_input(&self) -> Result<Vec<u8>, Error> {
        self.input_bytes()
    }

    fn get_key(&self) -> Result<Vec<u8>, Error> {
        self.key_bytes()
    }

    fn get_output_encoding(&self) -> TextEncoding {
        self.output_encoding
    }
}

/// Run one Curve25519 ECIES request given as text.
pub fn ecies_edwards(data: &EciesEdwardsDto) -> (r: Result<String, Error>)
    ensures
        !data.for_encryption ==> (r matches Ok(s) ==> (spec_decode(
            data.key_encoding,
            str_bytes(data.key@),
        ) matches Some(kb) && spec_decode(data.input_encoding, str_bytes(data.input@)) matches Some(
            envelope,
        ) && spec_ed_priv_import(data.format, kb) matches Some(seed) && spec_ed_ecies_plaintext(
            seed,
            envelope,
        ) matches Some(p) && s@ == spec_encode(data.output_encoding, p))),
        data.for_encryption ==> (r matches Ok(s) ==> (spec_decode(
            data.key_encoding,
            str_bytes(data.key@),
        ) matches Some(kb) && spec_decode(data.input_encoding, str_bytes(data.input@)) matches Some(
            pt,
        ) && spec_ed_pub_import(data.format, kb) matches Some(pubkey) && exists|e: Seq<u8>|
            {
                &&& #[trigger] e.len() == 32
                &&& s@ == spec_encode(
                    data.output_encoding,
                    seq![32u8] + x25519_point_of(e) + spec_ed_ecies_sealed(
                        e,
                        ed_mont_of(pubkey),
                        pt,
                    ),
                )
            })),
        data.for_encryption ==> ((spec_decode(data.key_encoding, str_bytes(data.key@)) matches Some(
            kb,
        ) && spec_decode(data.input_encoding, str_bytes(data.input@)) matches Some(pt)
            && spec_ed_pub_import(data.format, kb) is Some && pt.len() < 0x1000000000
            && data.output_encoding != TextEncoding::Utf8) ==> r is Ok),
        !data.for_encryption ==> ((spec_decode(data.key_encoding, str_bytes(data.key@)) matches Some(
            kb,
        ) && spec_decode(data.input_encoding, str_bytes(data.input@)) matches Some(envelope)
            && spec_ed_priv_import(data.format, kb) matches Some(seed) && spec_ed_ecies_plaintext(
            seed,
            envelope,
        ) matches Some(p) && spec_encode_ok(data.output_encoding, p)) ==> r is Ok),
{
    let input = data.input_bytes()?;
    let key = data.key_bytes()?;
    let output = match data.curve_name {
        EdwardsCurveName::Curve25519 => curve_25519_ecies(
            input.as_slice(),
            key.as_slice(),
            data.format,
            data.encryption_alg,
            data.for_encryption,
        )?,
    };
    data.output_encoding.encode(output.as_slice())
}

// ---------------------------------------------------------------------------
// Key lifecycle.
// ---------------------------------------------------------------------------

/// Generate a Curve25519 key pair, serialized as PKCS8 and SPKI.
/// Generation never fails: the drawn pair is well formed by
/// construction.
pub fn generate_curve_25519_key(format: KeyFormat) -> (r: Result<(Vec<u8>, Vec<u8>), Error>)
    ensures
        r is Ok,
        r matches Ok(pair) ==> exists|seed: Seq<u8>|
            {
                &&& #[trigger] seed.len() == 32
                &&& pair.0@ == spec_ed_priv_export(format, seed)
                &&& spec_ed_priv_import(format, pair.0@) == Some(seed)
                &&& pair.1@ == spec_ed_pub_export(format, ed_point_of(seed))
            },
{
    let (seed, point) = ed_generate();
    let private_key = export_curve_25519_private_key(seed.as_slice(), format);
    let public_key = export_curve_25519_public_key(point.as_slice(), format)?;
    Ok((private_key, public_key))
}

/// Generate a Curve25519 key pair and render both halves in the
/// requested encoding.
pub fn generate_edwards(curve_name: EdwardsCurveName, format: KeyFormat, encoding: TextEncoding) -> (r:
    Result<KeyTuple, Error>)
    ensures
        encoding != TextEncoding::Utf8 ==> r is Ok,
        r matches Ok(t) ==> exists|seed: Seq<u8>|
            {
                &&& #[trigger] seed.len() == 32
                &&& t.0 matches Some(pr) && pr@ == spec_encode(
                    encoding,
                    spec_ed_priv_export(format, seed),
                )
                &&& t.1 matches Some(pu) && pu@ == spec_encode(
                    encoding,
                    spec_ed_pub_export(format, ed_point_of(seed)),
                )
            },
{
    let (private_key, public_key) = match curve_name {
        EdwardsCurveName::Curve25519 => generate_curve_25519_key(format),
    }?;
    let private_text = encoding.encode(private_key.as_slice())?;
    let public_text = encoding.encode(public_key.as_slice())?;
    Ok(KeyTuple::new(private_text, public_text))
}

/// Derive the public half of a Curve25519 private key given as text.
pub fn derive_edwards(
    curve_name: EdwardsCurveName,
    input: &str,
    format: KeyFormat,
    encoding: TextEncoding,
) -> (r: Result<String, Error>)
    ensures
        r matches Ok(s) ==> (spec_decode(encoding, input.spec_bytes()) matches Some(kb)
            && spec_ed_priv_import(format, kb) matches Some(seed) && s@ == spec_encode(
            encoding,
            spec_ed_pub_export(format, ed_point_of(seed)),
        )),
        (spec_decode(encoding, input.spec_bytes()) matches Some(kb) && spec_ed_priv_import(
            format,
            kb,
        ) is Some && encoding != TextEncoding::Utf8) ==> r is Ok,
{
    let key_bytes = encoding.decode(input)?;
    let public_key = match curve_name {
        EdwardsCurveName::Curve25519 => derive_curve_25519(key_bytes.as_slice(), format),
    }?;
    encoding.encode(public_key.as_slice())
}

/// Transcode a Curve25519 key pair between the PEM and DER
/// serializations of its PKCS8 and SPKI containers: each half that is
/// present and non-empty is re-serialized, the others stay absent.
pub fn transfer_edwards_key(
    curve_name: EdwardsCurveName,
    private_key: Option<String>,
    public_key: Option<String>,
    from: crate::codec::PkcsDto,
    to: crate::codec::PkcsDto,
) -> (r: Result<KeyTuple, Error>)
    ensures
        r matches Ok(t) ==> (private_key matches Some(k) ==> (t.0 matches Some(s) ==> (spec_decode(
            from.encoding,
            str_bytes(k@),
        ) matches Some(kb) && spec_ed_priv_import(from.format, kb) matches Some(seed) && s@
            == spec_encode(to.encoding, spec_ed_priv_export(to.format, seed))))),
        r matches Ok(t) ==> (public_key matches Some(k) ==> (t.1 matches Some(s) ==> (spec_decode(
            from.encoding,
            str_bytes(k@),
        ) matches Some(kb) && spec_ed_pub_import(from.format, kb) matches Some(point) && s@
            == spec_encode(to.encoding, spec_ed_pub_export(to.format, point))))),
        r matches Ok(t) ==> (private_key is None ==> t.0 is None) && (public_key is None ==> t.1
            is None),
        r matches Ok(t) ==> (private_key matches Some(k) && k@.len() != 0 ==> t.0 is Some),
        r matches Ok(t) ==> (public_key matches Some(k) && k@.len() != 0 ==> t.1 is Some),
        ((match private_key {
            Some(k) => k@.len() == 0 || (match spec_decode(from.encoding, str_bytes(k@)) {
                Some(kb) => spec_ed_priv_import(from.format, kb) is Some,
                None => false,
            }),
            None => true,
        }) && (match public_key {
            Some(k) => k@.len() == 0 || (match spec_decode(from.encoding, str_bytes(k@)) {
                Some(kb) => spec_ed_pub_import(from.format, kb) is Some,
                None => false,
            }),
            None => true,
        }) && to.encoding != TextEncoding::Utf8) ==> r is Ok,
{
    let mut tuple = KeyTuple::empty();
    let private_out: Option<String> = match &private_key {
        Some(k) => {
            if !k.as_str().is_empty() {
                let key_bytes = from.encoding.decode(k.as_str())?;
                let seed = import_curve_25519_private_key(key_bytes.as_slice(), from.format)?;
                let out = export_curve_25519_private_key(seed.as_slice(), to.format);
                Some(to.encoding.encode(out.as_slice())?)
            } else {
                None
            }
        },
        None => None,
    };
    let public_out: Option<String> = match &public_key {
        Some(k) => {
            if !k.as_str().is_empty() {
                let key_bytes = from.encoding.decode(k.as_str())?;
                let point = import_curve_25519_public_key(key_bytes.as_slice(), from.format)?;
                let out = export_curve_25519_public_key(point.as_slice(), to.format)?;
                Some(to.encoding.encode(out.as_slice())?)
            } else {
                None
            }
        },
        None => None,
    };
    tuple.private(private_out);
    tuple.public(public_out);
    Ok(tuple)
}

/// Generate a fresh Ed25519 private key as a PKCS8 PEM document.
pub fn generate_ed25519() -> (r: Result<String, Error>)
    ensures
        r matches Ok(s) ==> exists|seed: Seq<u8>|
            #[trigger] seed.len() == 32 && s@ == spec_encode(
                TextEncoding::Utf8,
                spec_ed_priv_export(KeyFormat::Pem, seed),
            ),
{
    let (seed, _point) = ed_generate();
    let pem = export_curve_25519_private_key(seed.as_slice(), KeyFormat::Pem);
    TextEncoding::Utf8.encode(pem.as_slice())
}

} // verus!
