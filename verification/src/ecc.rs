//! The elliptic-curve key codec: generation, public-key derivation,
//! container transcoding and content sniffing over the five supported
//! Weierstrass curves.
//!
//! Private keys live in the PKCS8 or SEC1 container, public keys in
//! SPKI; each can be serialized as DER or as PEM. All dispatch, PEM
//! framing and label validation is verified; only the DER parsing and
//! point arithmetic of each curve's backend is trusted.

use vstd::prelude::*;
use vstd::string::StringSliceAdditionalSpecFns;

use crate::backend;
use crate::backend::{ec_ecdh, ec_pkcs8_of_priv, ec_point_of, ec_point_ok, ec_priv_of_pkcs8,
    ec_priv_of_sec1, ec_pub_of_spki, ec_scalar_ok, ec_sec1_of_priv, ec_spki_of_pub};
use crate::codec::{b64_opened, base64_decode, spec_decode, spec_encode, string_encode, PkcsDto};
use crate::common::KeyTuple;
use crate::crypto::str_bytes;
use crate::enums::{EccCurveName, KeyFormat, Pkcs, TextEncoding};
use crate::errors::Error;
use crate::pem::{bytes_eq, pem_decode, pem_encode, pem_of, pem_opened, PEM_BEGIN};

verus! {

/// The position of a curve in the engine's fixed priority order.
pub open spec fn curve_id(c: EccCurveName) -> int {
    match c {
        EccCurveName::NistP256 => 1,
        EccCurveName::NistP384 => 2,
        EccCurveName::NistP521 => 3,
        EccCurveName::Secp256k1 => 4,
        EccCurveName::SM2 => 5,
    }
}

/// `PRIVATE KEY`, the PEM label of a PKCS8 private key.
pub const LABEL_PKCS8: [u8; 11] = [80, 82, 73, 86, 65, 84, 69, 32, 75, 69, 89];

/// `EC PRIVATE KEY`, the PEM label of a SEC1 private key.
pub const LABEL_SEC1: [u8; 14] = [69, 67, 32, 80, 82, 73, 86, 65, 84, 69, 32, 75, 69, 89];

/// `PUBLIC KEY`, the PEM label of an SPKI public key.
pub const LABEL_SPKI: [u8; 10] = [80, 85, 66, 76, 73, 67, 32, 75, 69, 89];

/// The PEM label of a private-key container.
pub open spec fn priv_label(pkcs: Pkcs) -> Seq<u8> {
    if pkcs == Pkcs::Pkcs8 {
        LABEL_PKCS8@
    } else {
        LABEL_SEC1@
    }
}

// ---------------------------------------------------------------------------
// Curve dispatch.
// ---------------------------------------------------------------------------

/// Parse a PKCS8 DER private key on the given curve.
pub fn ec_priv_from_pkcs8(curve: EccCurveName, der: &[u8]) -> (r: Option<Vec<u8>>)
    ensures
        r matches Some(v) ==> ec_priv_of_pkcs8(curve_id(curve), der@) == Some(v@) && v@.len()
            == curve.spec_field_size() && ec_scalar_ok(curve_id(curve), v@),
        r is Some <==> ec_priv_of_pkcs8(curve_id(curve), der@) is Some,
{
    match curve {
        EccCurveName::NistP256 => backend::p256::priv_from_pkcs8_der(der),
        EccCurveName::NistP384 => backend::p384::priv_from_pkcs8_der(der),
        EccCurveName::NistP521 => backend::p521::priv_from_pkcs8_der(der),
        EccCurveName::Secp256k1 => backend::k256::priv_from_pkcs8_der(der),
        EccCurveName::SM2 => backend::sm2::priv_from_pkcs8_der(der),
    }
}

/// Parse a SEC1 DER private key on the given curve.
pub fn ec_priv_from_sec1(curve: EccCurveName, der: &[u8]) -> (r: Option<Vec<u8>>)
    ensures
        r matches Some(v) ==> ec_priv_of_sec1(curve_id(curve), der@) == Some(v@) && v@.len()
            == curve.spec_field_size() && ec_scalar_ok(curve_id(curve), v@),
        r is Some <==> ec_priv_of_sec1(curve_id(curve), der@) is Some,
{
    match curve {
        EccCurveName::NistP256 => backend::p256::priv_from_sec1_der(der),
        EccCurveName::NistP384 => backend::p384::priv_from_sec1_der(der),
        EccCurveName::NistP521 => backend::p521::priv_from_sec1_der(der),
        EccCurveName::Secp256k1 => backend::k256::priv_from_sec1_der(der),
        EccCurveName::SM2 => backend::sm2::priv_from_sec1_der(der),
    }
}

/// Encode a private scalar as a PKCS8 DER document.
pub fn ec_priv_to_pkcs8(curve: EccCurveName, scalar: &[u8]) -> (r: Option<Vec<u8>>)
    requires
        scalar@.len() == curve.spec_field_size(),
    ensures
        r matches Some(v) ==> v@ == ec_pkcs8_of_priv(curve_id(curve), scalar@) && ec_priv_of_pkcs8(
            curve_id(curve),
            v@,
        ) == Some(scalar@),
        r is Some <==> ec_scalar_ok(curve_id(curve), scalar@),
{
    match curve {
        EccCurveName::NistP256 => backend::p256::priv_to_pkcs8_der(scalar),
        EccCurveName::NistP384 => backend::p384::priv_to_pkcs8_der(scalar),
        EccCurveName::NistP521 => backend::p521::priv_to_pkcs8_der(scalar),
        EccCurveName::Secp256k1 => backend::k256::priv_to_pkcs8_der(scalar),
        EccCurveName::SM2 => backend::sm2::priv_to_pkcs8_der(scalar),
    }
}

/// Encode a private scalar as a SEC1 DER document.
pub fn ec_priv_to_sec1(curve: EccCurveName, scalar: &[u8]) -> (r: Option<Vec<u8>>)
    requires
        scalar@.len() == curve.spec_field_size(),
    ensures
        r matches Some(v) ==> v@ == ec_sec1_of_priv(curve_id(curve), scalar@) && ec_priv_of_sec1(
            curve_id(curve),
            v@,
        ) == Some(scalar@),
        r is Some <==> ec_scalar_ok(curve_id(curve), scalar@),
{
    match curve {
        EccCurveName::NistP256 => backend::p256::priv_to_sec1_der(scalar),
        EccCurveName::NistP384 => backend::p384::priv_to_sec1_der(scalar),
        EccCurveName::NistP521 => backend::p521::priv_to_sec1_der(scalar),
        EccCurveName::Secp256k1 => backend::k256::priv_to_sec1_der(scalar),
        EccCurveName::SM2 => backend::sm2::priv_to_sec1_der(scalar),
    }
}

/// Parse an SPKI DER public key on the given curve.
pub fn ec_pub_from_spki(curve: EccCurveName, der: &[u8]) -> (r: Option<Vec<u8>>)
    ensures
        r matches Some(v) ==> ec_pub_of_spki(curve_id(curve), der@) == Some(v@) && v@.len()
            == curve.spec_field_size() + 1 && ec_point_ok(curve_id(curve), v@),
        r is Some <==> ec_pub_of_spki(curve_id(curve), der@) is Some,
{
    match curve {
        EccCurveName::NistP256 => backend::p256::pub_from_spki_der(der),
        EccCurveName::NistP384 => backend::p384::pub_from_spki_der(der),
        EccCurveName::NistP521 => backend::p521::pub_from_spki_der(der),
        EccCurveName::Secp256k1 => backend::k256::pub_from_spki_der(der),
        EccCurveName::SM2 => backend::sm2::pub_from_spki_der(der),
    }
}

/// Encode a public point as an SPKI DER document.
pub fn ec_pub_to_spki(curve: EccCurveName, point: &[u8]) -> (r: Option<Vec<u8>>)
    requires
        point@.len() == curve.spec_field_size() + 1,
    ensures
        r matches Some(v) ==> v@ == ec_spki_of_pub(curve_id(curve), point@) && ec_pub_of_spki(
            curve_id(curve),
            v@,
        ) == Some(point@),
        r is Some <==> ec_point_ok(curve_id(curve), point@),
{
    match curve {
        EccCurveName::NistP256 => backend::p256::pub_to_spki_der(point),
        EccCurveName::NistP384 => backend::p384::pub_to_spki_der(point),
        EccCurveName::NistP521 => backend::p521::pub_to_spki_der(point),
        EccCurveName::Secp256k1 => backend::k256::pub_to_spki_der(point),
        EccCurveName::SM2 => backend::sm2::pub_to_spki_der(point),
    }
}

/// Draw a fresh key pair on the given curve.
pub fn ec_generate(curve: EccCurveName) -> (r: (Vec<u8>, Vec<u8>))
    ensures
        ec_scalar_ok(curve_id(curve), r.0@),
        r.0@.len() == curve.spec_field_size(),
        r.1@ == ec_point_of(curve_id(curve), r.0@),
        r.1@.len() == curve.spec_field_size() + 1,
        ec_point_ok(curve_id(curve), r.1@),
{
    match curve {
        EccCurveName::NistP256 => backend::p256::generate(),
        EccCurveName::NistP384 => backend::p384::generate(),
        EccCurveName::NistP521 => backend::p521::generate(),
        EccCurveName::Secp256k1 => backend::k256::generate(),
        EccCurveName::SM2 => backend::sm2::generate(),
    }
}

/// The compressed public point of a private scalar.
pub fn ec_public_point(curve: EccCurveName, scalar: &[u8]) -> (r: Vec<u8>)
    requires
        ec_scalar_ok(curve_id(curve), scalar@),
    ensures
        r@ == ec_point_of(curve_id(curve), scalar@),
        r@.len() == curve.spec_field_size() + 1,
        ec_point_ok(curve_id(curve), r@),
{
    match curve {
        EccCurveName::NistP256 => backend::p256::point_of_priv(scalar),
        EccCurveName::NistP384 => backend::p384::point_of_priv(scalar),
        EccCurveName::NistP521 => backend::p521::point_of_priv(scalar),
        EccCurveName::Secp256k1 => backend::k256::point_of_priv(scalar),
        EccCurveName::SM2 => backend::sm2::point_of_priv(scalar),
    }
}

/// The Diffie-Hellman shared secret of a private scalar and a public
/// point.
pub fn ec_shared_secret(curve: EccCurveName, scalar: &[u8], point: &[u8]) -> (r: Option<Vec<u8>>)
    requires
        ec_scalar_ok(curve_id(curve), scalar@),
    ensures
        r matches Some(ss) ==> ss@ == ec_ecdh(curve_id(curve), scalar@, point@) && ss@.len()
            == curve.spec_field_size() && (forall|s2: Seq<u8>|
            ec_scalar_ok(curve_id(curve), s2) && point@ == ec_point_of(curve_id(curve), s2)
                ==> ec_ecdh(curve_id(curve), scalar@, point@) == ec_ecdh(
                curve_id(curve),
                s2,
                ec_point_of(curve_id(curve), scalar@),
            )),
        r is Some <==> ec_point_ok(curve_id(curve), point@),
{
    match curve {
        EccCurveName::NistP256 => backend::p256::ecdh(scalar, point),
        EccCurveName::NistP384 => backend::p384::ecdh(scalar, point),
        EccCurveName::NistP521 => backend::p521::ecdh(scalar, point),
        EccCurveName::Secp256k1 => backend::k256::ecdh(scalar, point),
        EccCurveName::SM2 => backend::sm2::ecdh(scalar, point),
    }
}

// ---------------------------------------------------------------------------
// Import and export.
// ---------------------------------------------------------------------------

/// The scalar a DER document holds under a private-key container.
pub open spec fn spec_ec_priv_der_parse(c: EccCurveName, pkcs: Pkcs, der: Seq<u8>) -> Option<
    Seq<u8>,
> {
    if pkcs == Pkcs::Pkcs8 {
        ec_priv_of_pkcs8(curve_id(c), der)
    } else {
        ec_priv_of_sec1(curve_id(c), der)
    }
}

/// The scalar a serialized private key holds: for PEM, the document
/// must carry the container's own label.
pub open spec fn spec_ec_priv_import(
    c: EccCurveName,
    pkcs: Pkcs,
    format: KeyFormat,
    data: Seq<u8>,
) -> Option<Seq<u8>> {
    match format {
        KeyFormat::Der => spec_ec_priv_der_parse(c, pkcs, data),
        KeyFormat::Pem => match pem_opened(priv_label(pkcs), data) {
            Some(der) => spec_ec_priv_der_parse(c, pkcs, der),
            None => None,
        },
    }
}

/// The serialized form of a private scalar under a container and
/// serialization.
pub open spec fn spec_ec_priv_export(
    c: EccCurveName,
    pkcs: Pkcs,
    format: KeyFormat,
    scalar: Seq<u8>,
) -> Seq<u8> {
    let der = if pkcs == Pkcs::Pkcs8 {
        ec_pkcs8_of_priv(curve_id(c), scalar)
    } else {
        ec_sec1_of_priv(curve_id(c), scalar)
    };
    match format {
        KeyFormat::Der => der,
        KeyFormat::Pem => pem_of(priv_label(pkcs), der),
    }
}

/// The point a serialized SPKI public key holds.
pub open spec fn spec_ec_pub_import(c: EccCurveName, format: KeyFormat, data: Seq<u8>) -> Option<
    Seq<u8>,
> {
    match format {
        KeyFormat::Der => ec_pub_of_spki(curve_id(c), data),
        KeyFormat::Pem => match pem_opened(LABEL_SPKI@, data) {
            Some(der) => ec_pub_of_spki(curve_id(c), der),
            None => None,
        },
    }
}

/// The serialized SPKI form of a public point.
pub open spec fn spec_ec_pub_export(c: EccCurveName, format: KeyFormat, point: Seq<u8>) -> Seq<
    u8,
> {
    match format {
        KeyFormat::Der => ec_spki_of_pub(curve_id(c), point),
        KeyFormat::Pem => pem_of(LABEL_SPKI@, ec_spki_of_pub(curve_id(c), point)),
    }
}

/// Import a private key, handing back its scalar. Success is owed
/// exactly on well-labelled documents that parse on the curve; the
/// PKCS1 and SPKI containers never hold an elliptic-curve private key.
pub fn import_ecc_private_key(
    curve: EccCurveName,
    input: &[u8],
    pkcs: Pkcs,
    format: KeyFormat,
) -> (r: Result<Vec<u8>, Error>)
    ensures
        r matches Ok(v) ==> spec_ec_priv_import(curve, pkcs, format, input@) == Some(v@) && v@.len()
            == curve.spec_field_size() && ec_scalar_ok(curve_id(curve), v@),
        pkcs == Pkcs::Pkcs8 || pkcs == Pkcs::Sec1 ==> (r is Ok <==> spec_ec_priv_import(
            curve,
            pkcs,
            format,
            input@,
        ) is Some),
        !(pkcs == Pkcs::Pkcs8 || pkcs == Pkcs::Sec1) ==> (r matches Err(e) && e is Unsupported),
{
    if pkcs != Pkcs::Pkcs8 && pkcs != Pkcs::Sec1 {
        return Err(Error::Unsupported(String::from_str("container for a private key")));
    }
    let parsed = match format {
        KeyFormat::Der => {
            if pkcs == Pkcs::Pkcs8 {
                ec_priv_from_pkcs8(curve, input)
            } else {
                ec_priv_from_sec1(curve, input)
            }
        },
        KeyFormat::Pem => {
            let der = if pkcs == Pkcs::Pkcs8 {
                pem_decode(input, LABEL_PKCS8.as_slice())?
            } else {
                pem_decode(input, LABEL_SEC1.as_slice())?
            };
            if pkcs == Pkcs::Pkcs8 {
                ec_priv_from_pkcs8(curve, der.as_slice())
            } else {
                ec_priv_from_sec1(curve, der.as_slice())
            }
        },
    };
    match parsed {
        Some(v) => Ok(v),
        None => Err(Error::Format(String::from_str("private key does not parse on this curve"))),
    }
}

/// Export a private scalar under a container and serialization.
/// Re-importing the result gives the scalar back.
pub fn export_ecc_private_key(
    curve: EccCurveName,
    scalar: &[u8],
    pkcs: Pkcs,
    format: KeyFormat,
) -> (r: Result<Vec<u8>, Error>)
    ensures
        r matches Ok(v) ==> v@ == spec_ec_priv_export(curve, pkcs, format, scalar@)
            && spec_ec_priv_import(curve, pkcs, format, v@) == Some(scalar@),
        pkcs == Pkcs::Pkcs8 || pkcs == Pkcs::Sec1 ==> (r is Ok <==> (scalar@.len()
            == curve.spec_field_size() && ec_scalar_ok(curve_id(curve), scalar@))),
        !(pkcs == Pkcs::Pkcs8 || pkcs == Pkcs::Sec1) ==> (r matches Err(e) && e is Unsupported),
{
    if pkcs != Pkcs::Pkcs8 && pkcs != Pkcs::Sec1 {
        return Err(Error::Unsupported(String::from_str("container for a private key")));
    }
    if scalar.len() != curve.field_size() {
        return Err(Error::Format(String::from_str("bytes are no scalar on this curve")));
    }
    let der = match (if pkcs == Pkcs::Pkcs8 {
        ec_priv_to_pkcs8(curve, scalar)
    } else {
        ec_priv_to_sec1(curve, scalar)
    }) {
        Some(v) => v,
        None => {
            return Err(Error::Format(String::from_str("bytes are no scalar on this curve")));
        },
    };
    match format {
        KeyFormat::Der => Ok(der),
        KeyFormat::Pem => {
            let label = if pkcs == Pkcs::Pkcs8 {
                LABEL_PKCS8.as_slice()
            } else {
                LABEL_SEC1.as_slice()
            };
            Ok(pem_encode(label, der.as_slice()))
        },
    }
}

/// Import a public key, handing back its compressed point.
pub fn import_ecc_public_key(curve: EccCurveName, input: &[u8], format: KeyFormat) -> (r: Result<
    Vec<u8>,
    Error,
>)
    ensures
        r matches Ok(v) ==> spec_ec_pub_import(curve, format, input@) == Some(v@) && v@.len()
            == curve.spec_field_size() + 1 && ec_point_ok(curve_id(curve), v@),
        r is Ok <==> spec_ec_pub_import(curve, format, input@) is Some,
{
    let parsed = match format {
        KeyFormat::Der => ec_pub_from_spki(curve, input),
        KeyFormat::Pem => {
            let der = pem_decode(input, LABEL_SPKI.as_slice())?;
            ec_pub_from_spki(curve, der.as_slice())
        },
    };
    match parsed {
        Some(v) => Ok(v),
        None => Err(Error::Format(String::from_str("public key does not parse on this curve"))),
    }
}

/// Export a public point as SPKI. Re-importing the result gives the
/// point back.
pub fn export_ecc_public_key(curve: EccCurveName, point: &[u8], format: KeyFormat) -> (r: Result<
    Vec<u8>,
    Error,
>)
    ensures
        r matches Ok(v) ==> v@ == spec_ec_pub_export(curve, format, point@) && spec_ec_pub_import(
            curve,
            format,
            v@,
        ) == Some(point@),
        r is Ok <==> (point@.len() == curve.spec_field_size() + 1 && ec_point_ok(
            curve_id(curve),
            point@,
        )),
{
    if point.len() != curve.field_size() + 1 {
        return Err(Error::Format(String::from_str("bytes are no point on this curve")));
    }
    let der = match ec_pub_to_spki(curve, point) {
        Some(v) => v,
        None => {
            return Err(Error::Format(String::from_str("bytes are no point on this curve")));
        },
    };
    match format {
        KeyFormat::Der => Ok(der),
        KeyFormat::Pem => Ok(pem_encode(LABEL_SPKI.as_slice(), der.as_slice())),
    }
}

// ---------------------------------------------------------------------------
// Transcoding.
// ---------------------------------------------------------------------------

/// What transcoding a key between two container/serialization pairs
/// returns: the import under the source pair re-exported under the
/// target pair.
pub open spec fn spec_ec_transcode(
    c: EccCurveName,
    from: PkcsDto,
    to: PkcsDto,
    is_public: bool,
    data: Seq<u8>,
) -> Option<Seq<u8>> {
    if is_public {
        match spec_ec_pub_import(c, from.format, data) {
            Some(point) => Some(spec_ec_pub_export(c, to.format, point)),
            None => None,
        }
    } else {
        match spec_ec_priv_import(c, from.pkcs, from.format, data) {
            Some(scalar) => Some(spec_ec_priv_export(c, to.pkcs, to.format, scalar)),
            None => None,
        }
    }
}

/// Transcode one key between containers and serializations: the
/// primary entry point of format conversion. The result parses back to
/// the same key material, so transcoding it again under the reversed
/// pair gives the original document of a canonically-encoded key.
pub fn pkcs8_sec1_converter(
    curve: EccCurveName,
    input: &[u8],
    from: PkcsDto,
    to: PkcsDto,
    is_public: bool,
) -> (r: Result<Vec<u8>, Error>)
    ensures
        r matches Ok(v) ==> spec_ec_transcode(curve, from, to, is_public, input@) == Some(v@),
        container_pair_ok(from, to, is_public) ==> (r is Ok <==> (if is_public {
            spec_ec_pub_import(curve, from.format, input@) is Some
        } else {
            spec_ec_priv_import(curve, from.pkcs, from.format, input@) is Some
        })),
        !container_pair_ok(from, to, is_public) ==> (r matches Err(e) && e is Unsupported),
{
    if !(matches!(from.pkcs, Pkcs::Pkcs8 | Pkcs::Sec1) && matches!(to.pkcs, Pkcs::Pkcs8 | Pkcs::Sec1)) {
        return Err(Error::Unsupported(String::from_str("only elliptic-curve containers")));
    }
    if is_public {
        let point = import_ecc_public_key(curve, input, from.format)?;
        export_ecc_public_key(curve, point.as_slice(), to.format)
    } else {
        let scalar = import_ecc_private_key(curve, input, from.pkcs, from.format)?;
        export_ecc_private_key(curve, scalar.as_slice(), to.pkcs, to.format)
    }
}

/// Whether the two requested containers belong to the elliptic-curve
/// family.
pub open spec fn container_pair_ok(from: PkcsDto, to: PkcsDto, is_public: bool) -> bool {
    (from.pkcs == Pkcs::Pkcs8 || from.pkcs == Pkcs::Sec1) && (to.pkcs == Pkcs::Pkcs8 || to.pkcs
        == Pkcs::Sec1)
}

// ---------------------------------------------------------------------------
// Key lifecycle.
// ---------------------------------------------------------------------------

/// Generate a key pair on a curve and render both serialized halves
/// in the requested encoding: the private key under the requested
/// container, the public key as SPKI.
pub fn generate_ecc(
    curve_name: EccCurveName,
    pkcs: Pkcs,
    format: KeyFormat,
    encoding: TextEncoding,
) -> (r: Result<KeyTuple, Error>)
    ensures
        r matches Ok(t) ==> exists|s: Seq<u8>|
            {
                &&& #[trigger] ec_scalar_ok(curve_id(curve_name), s)
                &&& t.0 matches Some(pr) && pr@ == spec_encode(
                    encoding,
                    spec_ec_priv_export(curve_name, pkcs, format, s),
                )
                &&& t.1 matches Some(pu) && pu@ == spec_encode(
                    encoding,
                    spec_ec_pub_export(curve_name, format, ec_point_of(curve_id(curve_name), s)),
                )
            },
        !(pkcs == Pkcs::Pkcs8 || pkcs == Pkcs::Sec1) ==> (r matches Err(e) && e is Unsupported),
        (pkcs == Pkcs::Pkcs8 || pkcs == Pkcs::Sec1) && encoding != TextEncoding::Utf8 ==> r is Ok,
{
    let (scalar, point) = ec_generate(curve_name);
    let private_bytes = export_ecc_private_key(curve_name, scalar.as_slice(), pkcs, format)?;
    let public_bytes = export_ecc_public_key(curve_name, point.as_slice(), format)?;
    let private_text = encoding.encode(private_bytes.as_slice())?;
    let public_text = encoding.encode(public_bytes.as_slice())?;
    Ok(KeyTuple::new(private_text, public_text))
}

/// Derive the public half of a private key given as text, as SPKI in
/// the same serialization and text encoding.
pub fn derive_ecc(
    curve_name: EccCurveName,
    input: &str,
    pkcs: Pkcs,
    format: KeyFormat,
    encoding: TextEncoding,
) -> (r: Result<String, Error>)
    ensures
        r matches Ok(s) ==> (spec_decode(encoding, input.spec_bytes()) matches Some(kb)
            && spec_ec_priv_import(curve_name, pkcs, format, kb) matches Some(sc) && s@
            == spec_encode(
            encoding,
            spec_ec_pub_export(curve_name, format, ec_point_of(curve_id(curve_name), sc)),
        )),
        (spec_decode(encoding, input.spec_bytes()) matches Some(kb) && (pkcs == Pkcs::Pkcs8 || pkcs
            == Pkcs::Sec1) && spec_ec_priv_import(curve_name, pkcs, format, kb) is Some && encoding
            != TextEncoding::Utf8) ==> r is Ok,
{
    let key_bytes = encoding.decode(input)?;
    let scalar = import_ecc_private_key(curve_name, key_bytes.as_slice(), pkcs, format)?;
    let point = ec_public_point(curve_name, scalar.as_slice());
    let public_bytes = export_ecc_public_key(curve_name, point.as_slice(), format)?;
    encoding.encode(public_bytes.as_slice())
}

/// Transcode a key pair between containers and serializations: each
/// half that is present and non-empty is converted, the others stay
/// absent.
pub fn transfer_ecc_key(
    curve_name: EccCurveName,
    private_key: Option<String>,
    public_key: Option<String>,
    from: PkcsDto,
    to: PkcsDto,
) -> (r: Result<KeyTuple, Error>)
    ensures
        r matches Ok(t) ==> (private_key matches Some(k) ==> (t.0 matches Some(s) ==> (spec_decode(
            from.encoding,
            str_bytes(k@),
        ) matches Some(kb) && spec_ec_transcode(curve_name, from, to, false, kb) matches Some(out)
            && s@ == spec_encode(to.encoding, out)))),
        r matches Ok(t) ==> (public_key matches Some(k) ==> (t.1 matches Some(s) ==> (spec_decode(
            from.encoding,
            str_bytes(k@),
        ) matches Some(kb) && spec_ec_transcode(curve_name, from, to, true, kb) matches Some(out)
            && s@ == spec_encode(to.encoding, out)))),
        r matches Ok(t) ==> (private_key is None ==> t.0 is None) && (public_key is None ==> t.1
            is None),
        r matches Ok(t) ==> (private_key matches Some(k) && k@.len() != 0 ==> t.0 is Some),
        r matches Ok(t) ==> (public_key matches Some(k) && k@.len() != 0 ==> t.1 is Some),
        ((match private_key {
            Some(k) => k@.len() == 0 || (match spec_decode(from.encoding, str_bytes(k@)) {
                Some(kb) => spec_ec_priv_import(curve_name, from.pkcs, from.format, kb) is Some,
                None => false,
            }),
            None => true,
        }) && (match public_key {
            Some(k) => k@.len() == 0 || (match spec_decode(from.encoding, str_bytes(k@)) {
                Some(kb) => spec_ec_pub_import(curve_name, from.format, kb) is Some,
                None => false,
            }),
            None => true,
        }) && container_pair_ok(from, to, false) && to.encoding != TextEncoding::Utf8) ==> r is Ok,
{
    let mut tuple = KeyTuple::empty();
    let private_out: Option<String> = match &private_key {
        Some(k) => {
            if !k.as_str().is_empty() {
                let key_bytes = from.encoding.decode(k.as_str())?;
                let out = pkcs8_sec1_converter(curve_name, key_bytes.as_slice(), from, to, false)?;
                Some(to.encoding.encode(out.as_slice())?)
            } else {
                None
            }
        },
        None => None,
    };
    let public_out: Option<String> = match &public_key {
        Some(k) => {
            if !k.as_str().is_empty() {
                let key_bytes = from.encoding.decode(k.as_str())?;
                let out = pkcs8_sec1_converter(curve_name, key_bytes.as_slice(), from, to, true)?;
                Some(to.encoding.encode(out.as_slice())?)
            } else {
                None
            }
        },
        None => None,
    };
    tuple.private(private_out);
    tuple.public(public_out);
    Ok(tuple)
}

// ---------------------------------------------------------------------------
// Content sniffing.
// ---------------------------------------------------------------------------

/// What `parse_ecc` reports of a key it recognised: the curve, the
/// text encoding it arrived in, its serialization and its container.
pub struct EccKeyInfo {
    pub curve_name: EccCurveName,
    pub encoding: TextEncoding,
    pub format: KeyFormat,
    pub pkcs: Pkcs,
}

/// Whether a serialized key parses on a curve under a container: SPKI
/// documents hold public keys, the others private ones.
pub open spec fn spec_curve_parses(
    c: EccCurveName,
    pkcs: Pkcs,
    format: KeyFormat,
    data: Seq<u8>,
) -> bool {
    if pkcs == Pkcs::Spki {
        spec_ec_pub_import(c, format, data) is Some
    } else {
        spec_ec_priv_import(c, pkcs, format, data) is Some
    }
}

/// The first curve, in the engine's fixed priority order, on which a
/// serialized key parses. The order is a documented, deterministic
/// tie-break for the pathological case where one document parses on
/// several curves.
pub open spec fn spec_first_curve(pkcs: Pkcs, format: KeyFormat, data: Seq<u8>) -> Option<
    EccCurveName,
> {
    if spec_curve_parses(EccCurveName::NistP256, pkcs, format, data) {
        Some(EccCurveName::NistP256)
    } else if spec_curve_parses(EccCurveName::NistP384, pkcs, format, data) {
        Some(EccCurveName::NistP384)
    } else if spec_curve_parses(EccCurveName::NistP521, pkcs, format, data) {
        Some(EccCurveName::NistP521)
    } else if spec_curve_parses(EccCurveName::Secp256k1, pkcs, format, data) {
        Some(EccCurveName::Secp256k1)
    } else if spec_curve_parses(EccCurveName::SM2, pkcs, format, data) {
        Some(EccCurveName::SM2)
    } else {
        None
    }
}

/// Try one curve of the sniffing order.
fn curve_parses(c: EccCurveName, key: &[u8], pkcs: Pkcs, format: KeyFormat) -> (r: bool)
    requires
        pkcs == Pkcs::Pkcs8 || pkcs == Pkcs::Sec1 || pkcs == Pkcs::Spki,
    ensures
        r == spec_curve_parses(c, pkcs, format, key@),
{
    if pkcs == Pkcs::Spki {
        import_ecc_public_key(c, key, format).is_ok()
    } else {
        import_ecc_private_key(c, key, pkcs, format).is_ok()
    }
}

/// Name the first curve on which a serialized key parses, trying the
/// curves in the engine's fixed priority order.
pub fn parse_curve_name(key: &[u8], pkcs: Pkcs, format: KeyFormat) -> (r: Result<
    EccCurveName,
    Error,
>)
    ensures
        pkcs == Pkcs::Pkcs8 || pkcs == Pkcs::Sec1 || pkcs == Pkcs::Spki ==> (match r {
            Ok(c) => spec_first_curve(pkcs, format, key@) == Some(c),
            Err(_) => spec_first_curve(pkcs, format, key@) is None,
        }),
        pkcs == Pkcs::Pkcs1 ==> (r matches Err(e) && e is Unsupported),
{
    if pkcs == Pkcs::Pkcs1 {
        return Err(Error::Unsupported(String::from_str("no elliptic-curve key in pkcs1")));
    }
    if curve_parses(EccCurveName::NistP256, key, pkcs, format) {
        Ok(EccCurveName::NistP256)
    } else if curve_parses(EccCurveName::NistP384, key, pkcs, format) {
        Ok(EccCurveName::NistP384)
    } else if curve_parses(EccCurveName::NistP521, key, pkcs, format) {
        Ok(EccCurveName::NistP521)
    } else if curve_parses(EccCurveName::Secp256k1, key, pkcs, format) {
        Ok(EccCurveName::Secp256k1)
    } else if curve_parses(EccCurveName::SM2, key, pkcs, format) {
        Ok(EccCurveName::SM2)
    } else {
        Err(Error::Unsupported(String::from_str("no supported curve parses this key")))
    }
}

/// The bytes a sniffed text input stands for, and the encoding that
/// produced them: base64 if the text decodes as base64, else its
/// plain UTF-8 bytes.
pub open spec fn spec_sniff_bytes(input: Seq<u8>) -> (Seq<u8>, TextEncoding) {
    match b64_opened(input) {
        Some(v) => (v, TextEncoding::Base64),
        None => (input, TextEncoding::Utf8),
    }
}

/// Recognise the curve, container, serialization and text encoding of
/// an unknown key: the format-sniffing entry point.
pub fn parse_ecc(input: &str) -> (r: Result<EccKeyInfo, Error>)
    ensures
        r matches Ok(info) ==> {
            let (bytes, enc) = spec_sniff_bytes(input.spec_bytes());
            &&& info.encoding == enc
            &&& spec_first_curve(info.pkcs, info.format, bytes) == Some(info.curve_name)
            &&& (info.pkcs == Pkcs::Pkcs8 || info.pkcs == Pkcs::Sec1 || info.pkcs == Pkcs::Spki)
            &&& (info.format == KeyFormat::Pem ==> crate::codec::utf8_decode(bytes) is Some
                && bytes.len() >= 11 && bytes.subrange(0, 11) == PEM_BEGIN@)
            &&& (info.format == KeyFormat::Der ==> crate::codec::utf8_decode(bytes) is None)
        },
        ({
            let (bytes, enc) = spec_sniff_bytes(input.spec_bytes());
            crate::codec::utf8_decode(bytes) is None && (spec_first_curve(
                Pkcs::Pkcs8,
                KeyFormat::Der,
                bytes,
            ) is Some || spec_first_curve(Pkcs::Sec1, KeyFormat::Der, bytes) is Some
                || spec_first_curve(Pkcs::Spki, KeyFormat::Der, bytes) is Some)
        }) ==> r is Ok,
        ({
            let (bytes, enc) = spec_sniff_bytes(input.spec_bytes());
            crate::codec::utf8_decode(bytes) is Some && bytes.len() >= 11 && bytes.subrange(0, 11)
                == PEM_BEGIN@ && (spec_first_curve(Pkcs::Pkcs8, KeyFormat::Pem, bytes) is Some
                || spec_first_curve(Pkcs::Sec1, KeyFormat::Pem, bytes) is Some || spec_first_curve(
                Pkcs::Spki,
                KeyFormat::Pem,
                bytes,
            ) is Some)
        }) ==> r is Ok,
{
    let (key, encoding) = match base64_decode(input.as_bytes()) {
        Some(v) => (v, TextEncoding::Base64),
        None => (vstd::slice::slice_to_vec(input.as_bytes()), TextEncoding::Utf8),
    };
    let format = if string_encode(key.as_slice()).is_ok() {
        if key.len() >= 11 && bytes_eq(
            vstd::slice::slice_subrange(key.as_slice(), 0, 11),
            PEM_BEGIN.as_slice(),
        ) {
            KeyFormat::Pem
        } else {
            return Err(Error::Unsupported(String::from_str("unknown key content")));
        }
    } else {
        KeyFormat::Der
    };
    proof {
        assert(spec_sniff_bytes(input.spec_bytes()) == (key@, encoding));
    }
    let pkcs_order: [Pkcs; 3] = [Pkcs::Pkcs8, Pkcs::Sec1, Pkcs::Spki];
    let mut i: usize = 0;
    while i < 3
        invariant
            i <= 3,
            pkcs_order@ == seq![Pkcs::Pkcs8, Pkcs::Sec1, Pkcs::Spki],
            spec_sniff_bytes(input.spec_bytes()) == (key@, encoding),
            format == KeyFormat::Pem ==> crate::codec::utf8_decode(key@) is Some && key@.len()
                >= 11 && key@.subrange(0, 11) == PEM_BEGIN@,
            format == KeyFormat::Der ==> crate::codec::utf8_decode(key@) is None,
            forall|j: int|
                0 <= j < i ==> spec_first_curve(#[trigger] pkcs_order@[j], format, key@) is None,
        decreases 3 - i,
    {
        let pkcs = pkcs_order[i];
        match parse_curve_name(key.as_slice(), pkcs, format) {
            Ok(curve_name) => {
                return Ok(EccKeyInfo { curve_name, encoding, format, pkcs });
            },
            Err(_) => {},
        }
        i = i + 1;
    }
    Err(Error::Unsupported(String::from_str("no supported container parses this key")))
}

} // verus!
