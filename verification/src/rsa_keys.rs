//! The RSA key codec: generation, public-key derivation and container
//! transcoding between PKCS8 and PKCS1.
//!
//! RSA key material crosses the trusted boundary as its canonical
//! PKCS1 DER document; the PKCS8 container wraps that document, and
//! SPKI wraps the public one. Dispatch, PEM framing and label
//! validation are verified; parsing and the keypair arithmetic are
//! trusted.

use vstd::prelude::*;
use vstd::string::StringSliceAdditionalSpecFns;

use crate::codec::{b64_opened, base64_decode, spec_decode, spec_encode, string_encode, PkcsDto};
use crate::common::KeyTuple;
use crate::crypto::str_bytes;
use crate::ecc::{spec_sniff_bytes, LABEL_PKCS8, LABEL_SPKI};
use crate::enums::{KeyFormat, Pkcs, TextEncoding};
use crate::errors::Error;
use crate::pem::{bytes_eq, pem_decode, pem_encode, pem_of, pem_opened, PEM_BEGIN};

verus! {

/// `RSA PRIVATE KEY`, the PEM label of a PKCS1 private key.
pub const LABEL_RSA_PRIV: [u8; 15] = [
    82,
    83,
    65,
    32,
    80,
    82,
    73,
    86,
    65,
    84,
    69,
    32,
    75,
    69,
    89,
];

/// `RSA PUBLIC KEY`, the PEM label of a PKCS1 public key.
pub const LABEL_RSA_PUB: [u8; 14] = [82, 83, 65, 32, 80, 85, 66, 76, 73, 67, 32, 75, 69, 89];

/// The canonical PKCS1 document of a PKCS1 DER private key, or `None`
/// where the bytes do not parse.
pub uninterp spec fn rsa_priv_canon(der: Seq<u8>) -> Option<Seq<u8>>;

/// The canonical PKCS1 document held by a PKCS8 DER private key.
pub uninterp spec fn rsa_priv_of_pkcs8(der: Seq<u8>) -> Option<Seq<u8>>;

/// The PKCS8 document wrapping a PKCS1 private key.
pub uninterp spec fn rsa_pkcs8_of_priv(der: Seq<u8>) -> Seq<u8>;

/// The canonical PKCS1 document of a PKCS1 DER public key.
pub uninterp spec fn rsa_pub_canon(der: Seq<u8>) -> Option<Seq<u8>>;

/// The canonical PKCS1 public document held by an SPKI DER public key.
pub uninterp spec fn rsa_pub_of_spki(der: Seq<u8>) -> Option<Seq<u8>>;

/// The SPKI document wrapping a PKCS1 public key.
pub uninterp spec fn rsa_spki_of_pub(der: Seq<u8>) -> Seq<u8>;

/// The PKCS1 public document of the public half of a PKCS1 private
/// key.
pub uninterp spec fn rsa_pub_of_priv(der: Seq<u8>) -> Seq<u8>;

/// The modulus size, in bits, of a PKCS1 private key.
pub uninterp spec fn rsa_priv_bits(der: Seq<u8>) -> int;

/// The modulus size, in bits, of a PKCS1 public key.
pub uninterp spec fn rsa_pub_bits(der: Seq<u8>) -> int;

// ---------------------------------------------------------------------------
// Trusted wrappers.
// ---------------------------------------------------------------------------

/// Relies on `rsa::RsaPrivateKey` with `pkcs1`'s decode and encode:
/// validates a PKCS1 private document and re-emits it canonically.
#[verifier::external_body]
fn priv_canon_pkcs1(der: &[u8]) -> (r: Option<Vec<u8>>)
    ensures
        r matches Some(v) ==> rsa_priv_canon(der@) == Some(v@) && rsa_priv_canon(v@) == Some(v@)
            && rsa_priv_bits(v@) == rsa_priv_bits(der@),
        r is Some <==> rsa_priv_canon(der@) is Some,
{
    let k = <rsa::RsaPrivateKey as pkcs1::DecodeRsaPrivateKey>::from_pkcs1_der(der).ok()?;
    let d = pkcs1::EncodeRsaPrivateKey::to_pkcs1_der(&k).ok()?;
    Some(d.as_bytes().to_vec())
}

/// Relies on `rsa::RsaPrivateKey` with `pkcs8`'s decode and `pkcs1`'s
/// encode: unwraps a PKCS8 private document to its canonical PKCS1
/// content.
#[verifier::external_body]
fn priv_pkcs8_to_pkcs1(der: &[u8]) -> (r: Option<Vec<u8>>)
    ensures
        r matches Some(v) ==> rsa_priv_of_pkcs8(der@) == Some(v@) && rsa_priv_canon(v@) == Some(
            v@,
        ),
        r is Some <==> rsa_priv_of_pkcs8(der@) is Some,
{
    let k = <rsa::RsaPrivateKey as pkcs8::DecodePrivateKey>::from_pkcs8_der(der).ok()?;
    let d = pkcs1::EncodeRsaPrivateKey::to_pkcs1_der(&k).ok()?;
    Some(d.as_bytes().to_vec())
}

/// Relies on `rsa::RsaPrivateKey` with `pkcs1`'s decode and `pkcs8`'s
/// encode: wraps a PKCS1 private document as PKCS8, which unwraps back
/// to the canonical content.
#[verifier::external_body]
fn priv_pkcs1_to_pkcs8(der: &[u8]) -> (r: Option<Vec<u8>>)
    ensures
        r matches Some(v) ==> v@ == rsa_pkcs8_of_priv(der@) && rsa_priv_of_pkcs8(v@)
            == rsa_priv_canon(der@),
        r is Some <==> rsa_priv_canon(der@) is Some,
{
    let k = <rsa::RsaPrivateKey as pkcs1::DecodeRsaPrivateKey>::from_pkcs1_der(der).ok()?;
    let d = pkcs8::EncodePrivateKey::to_pkcs8_der(&k).ok()?;
    Some(d.as_bytes().to_vec())
}

/// Relies on `rsa::RsaPublicKey` with `pkcs1`'s decode and encode.
#[verifier::external_body]
fn pub_canon_pkcs1(der: &[u8]) -> (r: Option<Vec<u8>>)
    ensures
        r matches Some(v) ==> rsa_pub_canon(der@) == Some(v@) && rsa_pub_canon(v@) == Some(v@)
            && rsa_pub_bits(v@) == rsa_pub_bits(der@),
        r is Some <==> rsa_pub_canon(der@) is Some,
{
    let k = <rsa::RsaPublicKey as pkcs1::DecodeRsaPublicKey>::from_pkcs1_der(der).ok()?;
    let d = pkcs1::EncodeRsaPublicKey::to_pkcs1_der(&k).ok()?;
    Some(d.as_bytes().to_vec())
}

/// Relies on `rsa::RsaPublicKey` with `spki`'s decode and `pkcs1`'s
/// encode.
#[verifier::external_body]
fn pub_spki_to_pkcs1(der: &[u8]) -> (r: Option<Vec<u8>>)
    ensures
        r matches Some(v) ==> rsa_pub_of_spki(der@) == Some(v@) && rsa_pub_canon(v@) == Some(v@),
        r is Some <==> rsa_pub_of_spki(der@) is Some,
{
    let k = <rsa::RsaPublicKey as spki::DecodePublicKey>::from_public_key_der(der).ok()?;
    let d = pkcs1::EncodeRsaPublicKey::to_pkcs1_der(&k).ok()?;
    Some(d.as_bytes().to_vec())
}

/// Relies on `rsa::RsaPublicKey` with `pkcs1`'s decode and `spki`'s
/// encode.
#[verifier::external_body]
fn pub_pkcs1_to_spki(der: &[u8]) -> (r: Option<Vec<u8>>)
    ensures
        r matches Some(v) ==> v@ == rsa_spki_of_pub(der@) && rsa_pub_of_spki(v@) == rsa_pub_canon(
            der@,
        ),
        r is Some <==> rsa_pub_canon(der@) is Some,
{
    let k = <rsa::RsaPublicKey as pkcs1::DecodeRsaPublicKey>::from_pkcs1_der(der).ok()?;
    let d = spki::EncodePublicKey::to_public_key_der(&k).ok()?;
    Some(d.to_vec())
}

/// Relies on `rsa::RsaPrivateKey::to_public_key`: the public half of a
/// private key.
#[verifier::external_body]
fn pub_of_priv_pkcs1(der: &[u8]) -> (r: Option<Vec<u8>>)
    ensures
        r matches Some(v) ==> v@ == rsa_pub_of_priv(der@) && rsa_pub_canon(v@) == Some(v@)
            && rsa_pub_bits(v@) == rsa_priv_bits(der@),
        r is Some <==> rsa_priv_canon(der@) is Some,
{
    let k = <rsa::RsaPrivateKey as pkcs1::DecodeRsaPrivateKey>::from_pkcs1_der(der).ok()?;
    let d = pkcs1::EncodeRsaPublicKey::to_pkcs1_der(&k.to_public_key()).ok()?;
    Some(d.as_bytes().to_vec())
}

/// Relies on `rsa::RsaPrivateKey::new`: a fresh key pair of the
/// requested modulus size; nothing is promised of the draw beyond
/// well-formedness. Only byte-aligned sizes are taken: generation aims
/// for exactly `bits` modulus bits, while the parsed size is read back
/// in whole bytes.
#[verifier::external_body]
fn generate_pkcs1(bits: usize) -> (r: Option<(Vec<u8>, Vec<u8>)>)
    requires
        bits % 8 == 0,
    ensures
        r matches Some(pair) ==> rsa_priv_canon(pair.0@) == Some(pair.0@) && pair.1@
            == rsa_pub_of_priv(pair.0@) && rsa_pub_canon(pair.1@) == Some(pair.1@)
            && rsa_priv_bits(pair.0@) == bits,
{
    let k = rsa::RsaPrivateKey::new(&mut rand::thread_rng(), bits).ok()?;
    let private = pkcs1::EncodeRsaPrivateKey::to_pkcs1_der(&k).ok()?;
    let public = pkcs1::EncodeRsaPublicKey::to_pkcs1_der(&k.to_public_key()).ok()?;
    Some((private.as_bytes().to_vec(), public.as_bytes().to_vec()))
}

/// Relies on `rsa::traits::PublicKeyParts::size`: the modulus size of
/// a parsed private key, in bytes.
#[verifier::external_body]
fn priv_bits_of(der: &[u8]) -> (r: Option<usize>)
    ensures
        r matches Some(b) ==> b == rsa_priv_bits(der@),
        r is Some <==> rsa_priv_canon(der@) is Some,
{
    let k = <rsa::RsaPrivateKey as pkcs1::DecodeRsaPrivateKey>::from_pkcs1_der(der).ok()?;
    Some(rsa::traits::PublicKeyParts::size(&k) * 8)
}

/// Relies on `rsa::traits::PublicKeyParts::size`: the modulus size of
/// a parsed public key, in bytes.
#[verifier::external_body]
fn pub_bits_of(der: &[u8]) -> (r: Option<usize>)
    ensures
        r matches Some(b) ==> b == rsa_pub_bits(der@),
        r is Some <==> rsa_pub_canon(der@) is Some,
{
    let k = <rsa::RsaPublicKey as pkcs1::DecodeRsaPublicKey>::from_pkcs1_der(der).ok()?;
    Some(rsa::traits::PublicKeyParts::size(&k) * 8)
}

// ---------------------------------------------------------------------------
// Import and export.
// ---------------------------------------------------------------------------

/// The canonical PKCS1 content of a serialized RSA private key.
pub open spec fn spec_rsa_priv_import(pkcs: Pkcs, format: KeyFormat, data: Seq<u8>) -> Option<
    Seq<u8>,
> {
    let label = if pkcs == Pkcs::Pkcs8 {
        LABEL_PKCS8@
    } else {
        LABEL_RSA_PRIV@
    };
    let der_opt = match format {
        KeyFormat::Der => Some(data),
        KeyFormat::Pem => pem_opened(label, data),
    };
    match der_opt {
        Some(der) => if pkcs == Pkcs::Pkcs8 {
            rsa_priv_of_pkcs8(der)
        } else {
            rsa_priv_canon(der)
        },
        None => None,
    }
}

/// The serialized form of a canonical PKCS1 private key under a
/// container and serialization.
pub open spec fn spec_rsa_priv_export(pkcs: Pkcs, format: KeyFormat, pkcs1: Seq<u8>) -> Seq<u8> {
    let der = if pkcs == Pkcs::Pkcs8 {
        rsa_pkcs8_of_priv(pkcs1)
    } else {
        pkcs1
    };
    let label = if pkcs == Pkcs::Pkcs8 {
        LABEL_PKCS8@
    } else {
        LABEL_RSA_PRIV@
    };
    match format {
        KeyFormat::Der => der,
        KeyFormat::Pem => pem_of(label, der),
    }
}

/// The canonical PKCS1 content of a serialized RSA public key: the
/// PKCS8 container of a public key is SPKI.
pub open spec fn spec_rsa_pub_import(pkcs: Pkcs, format: KeyFormat, data: Seq<u8>) -> Option<
    Seq<u8>,
> {
    let label = if pkcs == Pkcs::Pkcs8 {
        LABEL_SPKI@
    } else {
        LABEL_RSA_PUB@
    };
    let der_opt = match format {
        KeyFormat::Der => Some(data),
        KeyFormat::Pem => pem_opened(label, data),
    };
    match der_opt {
        Some(der) => if pkcs == Pkcs::Pkcs8 {
            rsa_pub_of_spki(der)
        } else {
            rsa_pub_canon(der)
        },
        None => None,
    }
}

/// The serialized form of a canonical PKCS1 public key.
pub open spec fn spec_rsa_pub_export(pkcs: Pkcs, format: KeyFormat, pkcs1: Seq<u8>) -> Seq<u8> {
    let der = if pkcs == Pkcs::Pkcs8 {
        rsa_spki_of_pub(pkcs1)
    } else {
        pkcs1
    };
    let label = if pkcs == Pkcs::Pkcs8 {
        LABEL_SPKI@
    } else {
        LABEL_RSA_PUB@
    };
    match format {
        KeyFormat::Der => der,
        KeyFormat::Pem => pem_of(label, der),
    }
}

/// Import an RSA private key, handing back its canonical PKCS1
/// content. The SEC1 and SPKI containers never hold an RSA private
/// key.
pub fn bytes_to_private_key(input: &[u8], pkcs: Pkcs, format: KeyFormat) -> (r: Result<
    Vec<u8>,
    Error,
>)
    ensures
        r matches Ok(v) ==> spec_rsa_priv_import(pkcs, format, input@) == Some(v@)
            && rsa_priv_canon(v@) == Some(v@),
        pkcs == Pkcs::Pkcs8 || pkcs == Pkcs::Pkcs1 ==> (r is Ok <==> spec_rsa_priv_import(
            pkcs,
            format,
            input@,
        ) is Some),
        !(pkcs == Pkcs::Pkcs8 || pkcs == Pkcs::Pkcs1) ==> (r matches Err(e) && e is Unsupported),
{
    if pkcs != Pkcs::Pkcs8 && pkcs != Pkcs::Pkcs1 {
        return Err(Error::Unsupported(String::from_str("container for an rsa private key")));
    }
    let parsed = match format {
        KeyFormat::Der => {
            if pkcs == Pkcs::Pkcs8 {
                priv_pkcs8_to_pkcs1(input)
            } else {
                priv_canon_pkcs1(input)
            }
        },
        KeyFormat::Pem => {
            let der = if pkcs == Pkcs::Pkcs8 {
                pem_decode(input, LABEL_PKCS8.as_slice())?
            } else {
                pem_decode(input, LABEL_RSA_PRIV.as_slice())?
            };
            if pkcs == Pkcs::Pkcs8 {
                priv_pkcs8_to_pkcs1(der.as_slice())
            } else {
                priv_canon_pkcs1(der.as_slice())
            }
        },
    };
    match parsed {
        Some(v) => Ok(v),
        None => Err(Error::Format(String::from_str("not an rsa private key"))),
    }
}

/// Export a canonical PKCS1 private key under a container and
/// serialization. Re-importing the result gives the content back.
pub fn private_key_to_bytes(pkcs1: &[u8], pkcs: Pkcs, format: KeyFormat) -> (r: Result<
    Vec<u8>,
    Error,
>)
    requires
        rsa_priv_canon(pkcs1@) == Some(pkcs1@),
    ensures
        r matches Ok(v) ==> v@ == spec_rsa_priv_export(pkcs, format, pkcs1@)
            && spec_rsa_priv_import(pkcs, format, v@) == Some(pkcs1@),
        pkcs == Pkcs::Pkcs8 || pkcs == Pkcs::Pkcs1 ==> r is Ok,
        !(pkcs == Pkcs::Pkcs8 || pkcs == Pkcs::Pkcs1) ==> (r matches Err(e) && e is Unsupported),
{
    let der = match pkcs {
        Pkcs::Pkcs8 => match priv_pkcs1_to_pkcs8(pkcs1) {
            Some(v) => v,
            None => {
                return Err(Error::Format(String::from_str("not an rsa private key")));
            },
        },
        Pkcs::Pkcs1 => vstd::slice::slice_to_vec(pkcs1),
        _ => {
            return Err(Error::Unsupported(String::from_str("container for an rsa private key")));
        },
    };
    match format {
        KeyFormat::Der => Ok(der),
        KeyFormat::Pem => {
            let label = if pkcs == Pkcs::Pkcs8 {
                LABEL_PKCS8.as_slice()
            } else {
                LABEL_RSA_PRIV.as_slice()
            };
            Ok(pem_encode(label, der.as_slice()))
        },
    }
}

/// Import an RSA public key, handing back its canonical PKCS1
/// content.
pub fn bytes_to_public_key(input: &[u8], pkcs: Pkcs, format: KeyFormat) -> (r: Result<
    Vec<u8>,
    Error,
>)
    ensures
        r matches Ok(v) ==> spec_rsa_pub_import(pkcs, format, input@) == Some(v@) && rsa_pub_canon(
            v@,
        ) == Some(v@),
        pkcs == Pkcs::Pkcs8 || pkcs == Pkcs::Pkcs1 ==> (r is Ok <==> spec_rsa_pub_import(
            pkcs,
            format,
            input@,
        ) is Some),
        !(pkcs == Pkcs::Pkcs8 || pkcs == Pkcs::Pkcs1) ==> (r matches Err(e) && e is Unsupported),
{
    if pkcs != Pkcs::Pkcs8 && pkcs != Pkcs::Pkcs1 {
        return Err(Error::Unsupported(String::from_str("container for an rsa public key")));
    }
    let parsed = match format {
        KeyFormat::Der => {
            if pkcs == Pkcs::Pkcs8 {
                pub_spki_to_pkcs1(input)
            } else {
                pub_canon_pkcs1(input)
            }
        },
        KeyFormat::Pem => {
            let der = if pkcs == Pkcs::Pkcs8 {
                pem_decode(input, LABEL_SPKI.as_slice())?
            } else {
                pem_decode(input, LABEL_RSA_PUB.as_slice())?
            };
            if pkcs == Pkcs::Pkcs8 {
                pub_spki_to_pkcs1(der.as_slice())
            } else {
                pub_canon_pkcs1(der.as_slice())
            }
        },
    };
    match parsed {
        Some(v) => Ok(v),
        None => Err(Error::Format(String::from_str("not an rsa public key"))),
    }
}

/// Export a canonical PKCS1 public key under a container and
/// serialization. Re-importing the result gives the content back.
pub fn public_key_to_bytes(pkcs1: &[u8], pkcs: Pkcs, format: KeyFormat) -> (r: Result<
    Vec<u8>,
    Error,
>)
    requires
        rsa_pub_canon(pkcs1@) == Some(pkcs1@),
    ensures
        r matches Ok(v) ==> v@ == spec_rsa_pub_export(pkcs, format, pkcs1@) && spec_rsa_pub_import(
            pkcs,
            format,
            v@,
        ) == Some(pkcs1@),
        pkcs == Pkcs::Pkcs8 || pkcs == Pkcs::Pkcs1 ==> r is Ok,
        !(pkcs == Pkcs::Pkcs8 || pkcs == Pkcs::Pkcs1) ==> (r matches Err(e) && e is Unsupported),
{
    let der = match pkcs {
        Pkcs::Pkcs8 => match pub_pkcs1_to_spki(pkcs1) {
            Some(v) => v,
            None => {
                return Err(Error::Format(String::from_str("not an rsa public key")));
            },
        },
        Pkcs::Pkcs1 => vstd::slice::slice_to_vec(pkcs1),
        _ => {
            return Err(Error::Unsupported(String::from_str("container for an rsa public key")));
        },
    };
    match format {
        KeyFormat::Der => Ok(der),
        KeyFormat::Pem => {
            let label = if pkcs == Pkcs::Pkcs8 {
                LABEL_SPKI.as_slice()
            } else {
                LABEL_RSA_PUB.as_slice()
            };
            Ok(pem_encode(label, der.as_slice()))
        },
    }
}

// ---------------------------------------------------------------------------
// Transcoding.
// ---------------------------------------------------------------------------

/// What transcoding an RSA key between two container/serialization
/// pairs returns.
pub open spec fn spec_rsa_transcode(
    from: PkcsDto,
    to: PkcsDto,
    is_public: bool,
    data: Seq<u8>,
) -> Option<Seq<u8>> {
    if is_public {
        match spec_rsa_pub_import(from.pkcs, from.format, data) {
            Some(k) => Some(spec_rsa_pub_export(to.pkcs, to.format, k)),
            None => None,
        }
    } else {
        match spec_rsa_priv_import(from.pkcs, from.format, data) {
            Some(k) => Some(spec_rsa_priv_export(to.pkcs, to.format, k)),
            None => None,
        }
    }
}

/// Whether both requested containers belong to the RSA family.
pub open spec fn rsa_pair_ok(from: PkcsDto, to: PkcsDto) -> bool {
    (from.pkcs == Pkcs::Pkcs8 || from.pkcs == Pkcs::Pkcs1) && (to.pkcs == Pkcs::Pkcs8 || to.pkcs
        == Pkcs::Pkcs1)
}

/// Transcode one RSA key between containers and serializations: the
/// primary entry point of RSA format conversion. The result parses
/// back to the same key material.
pub fn pkcs8_pkcs1_converter_inner(input: &[u8], from: PkcsDto, to: PkcsDto, is_public: bool) -> (r:
    Result<Vec<u8>, Error>)
    ensures
        r matches Ok(v) ==> spec_rsa_transcode(from, to, is_public, input@) == Some(v@),
        rsa_pair_ok(from, to) ==> (r is Ok <==> (if is_public {
            spec_rsa_pub_import(from.pkcs, from.format, input@) is Some
        } else {
            spec_rsa_priv_import(from.pkcs, from.format, input@) is Some
        })),
        !rsa_pair_ok(from, to) ==> (r matches Err(e) && e is Unsupported),
{
    if !(matches!(from.pkcs, Pkcs::Pkcs8 | Pkcs::Pkcs1) && matches!(to.pkcs, Pkcs::Pkcs8 | Pkcs::Pkcs1)) {
        return Err(Error::Unsupported(String::from_str("only rsa containers")));
    }
    if is_public {
        let k = bytes_to_public_key(input, from.pkcs, from.format)?;
        public_key_to_bytes(k.as_slice(), to.pkcs, to.format)
    } else {
        let k = bytes_to_private_key(input, from.pkcs, from.format)?;
        private_key_to_bytes(k.as_slice(), to.pkcs, to.format)
    }
}

/// Generate an RSA key pair, handing back the canonical PKCS1 halves.
/// Only byte-aligned modulus sizes are served.
pub fn generate_rsa_pkcs1(bits: usize) -> (r: Result<(Vec<u8>, Vec<u8>), Error>)
    ensures
        bits % 8 != 0 ==> (r matches Err(e) && e is Unsupported),
        r matches Ok(pair) ==> rsa_priv_canon(pair.0@) == Some(pair.0@) && pair.1@
            == rsa_pub_of_priv(pair.0@) && rsa_pub_canon(pair.1@) == Some(pair.1@)
            && rsa_priv_bits(pair.0@) == bits,
{
    if bits % 8 != 0 {
        return Err(Error::Unsupported(String::from_str("rsa key size")));
    }
    match generate_pkcs1(bits) {
        Some(pair) => Ok(pair),
        None => Err(Error::Unsupported(String::from_str("rsa key size"))),
    }
}

/// Derive the public half of a canonical PKCS1 private key.
pub fn derive_rsa_public(pkcs1: &[u8]) -> (r: Result<Vec<u8>, Error>)
    ensures
        r matches Ok(v) ==> v@ == rsa_pub_of_priv(pkcs1@) && rsa_pub_canon(v@) == Some(v@),
        r is Ok <==> rsa_priv_canon(pkcs1@) is Some,
{
    match pub_of_priv_pkcs1(pkcs1) {
        Some(v) => Ok(v),
        None => Err(Error::Format(String::from_str("not an rsa private key"))),
    }
}

/// The modulus size of a private or public key under any RSA
/// container: private keys are tried first, as the sniffing order
/// demands.
pub fn parse_key_size(key: &[u8], pkcs: Pkcs, format: KeyFormat) -> (r: Result<usize, Error>)
    ensures
        r matches Ok(b) ==> (match spec_rsa_priv_import(pkcs, format, key@) {
            Some(k) => b == rsa_priv_bits(k),
            None => (spec_rsa_pub_import(pkcs, format, key@) matches Some(k) && b == rsa_pub_bits(
                k,
            )),
        }),
        pkcs == Pkcs::Pkcs8 || pkcs == Pkcs::Pkcs1 ==> (r is Ok <==> spec_rsa_parses(
            pkcs,
            format,
            key@,
        )),
{
    match bytes_to_private_key(key, pkcs, format) {
        Ok(k) => match priv_bits_of(k.as_slice()) {
            Some(b) => Ok(b),
            None => Err(Error::Format(String::from_str("rsa key content"))),
        },
        Err(_) => match bytes_to_public_key(key, pkcs, format) {
            Ok(k) => match pub_bits_of(k.as_slice()) {
                Some(b) => Ok(b),
                None => Err(Error::Format(String::from_str("rsa key content"))),
            },
            Err(_) => Err(Error::Unsupported(String::from_str("rsa key content"))),
        },
    }
}

// ---------------------------------------------------------------------------
// Key lifecycle.
// ---------------------------------------------------------------------------

/// Generate an RSA key pair of the requested modulus size and render
/// both serialized halves in the requested encoding.
pub fn generate_rsa(
    key_size: usize,
    pkcs: Pkcs,
    format: KeyFormat,
    encoding: TextEncoding,
) -> (r: Result<KeyTuple, Error>)
    ensures
        r matches Ok(t) ==> exists|k: Seq<u8>|
            {
                &&& #[trigger] rsa_priv_canon(k) == Some(k)
                &&& rsa_priv_bits(k) == key_size
                &&& t.0 matches Some(pr) && pr@ == spec_encode(
                    encoding,
                    spec_rsa_priv_export(pkcs, format, k),
                )
                &&& t.1 matches Some(pu) && pu@ == spec_encode(
                    encoding,
                    spec_rsa_pub_export(pkcs, format, rsa_pub_of_priv(k)),
                )
            },
{
    let (private_pkcs1, public_pkcs1) = generate_rsa_pkcs1(key_size)?;
    let private_bytes = private_key_to_bytes(private_pkcs1.as_slice(), pkcs, format)?;
    let public_bytes = public_key_to_bytes(public_pkcs1.as_slice(), pkcs, format)?;
    let private_text = encoding.encode(private_bytes.as_slice())?;
    let public_text = encoding.encode(public_bytes.as_slice())?;
    Ok(KeyTuple::new(private_text, public_text))
}

/// Derive the public half of an RSA private key given as text, under
/// the same container, serialization and text encoding.
pub fn derive_rsa(key: &str, pkcs: Pkcs, format: KeyFormat, encoding: TextEncoding) -> (r: Result<
    String,
    Error,
>)
    ensures
        r matches Ok(s) ==> (spec_decode(encoding, key.spec_bytes()) matches Some(kb)
            && spec_rsa_priv_import(pkcs, format, kb) matches Some(k) && s@ == spec_encode(
            encoding,
            spec_rsa_pub_export(pkcs, format, rsa_pub_of_priv(k)),
        )),
        (spec_decode(encoding, key.spec_bytes()) matches Some(kb) && (pkcs == Pkcs::Pkcs8 || pkcs
            == Pkcs::Pkcs1) && spec_rsa_priv_import(pkcs, format, kb) is Some && encoding
            != TextEncoding::Utf8) ==> r is Ok,
{
    let key_bytes = encoding.decode(key)?;
    let private_pkcs1 = bytes_to_private_key(key_bytes.as_slice(), pkcs, format)?;
    let public_pkcs1 = derive_rsa_public(private_pkcs1.as_slice())?;
    let public_bytes = public_key_to_bytes(public_pkcs1.as_slice(), pkcs, format)?;
    encoding.encode(public_bytes.as_slice())
}

/// Transcode an RSA key pair between containers and serializations:
/// each half that is present is converted, the others come back as
/// empty text.
pub fn transfer_rsa_key(
    private_key: Option<String>,
    public_key: Option<String>,
    from: PkcsDto,
    to: PkcsDto,
) -> (r: Result<KeyTuple, Error>)
    ensures
        r matches Ok(t) ==> (private_key matches Some(k) ==> (t.0 matches Some(s) ==> (spec_decode(
            from.encoding,
            str_bytes(k@),
        ) matches Some(kb) && spec_rsa_transcode(from, to, false, kb) matches Some(out) && s@
            == spec_encode(to.encoding, out)))),
        r matches Ok(t) ==> (public_key matches Some(k) ==> (t.1 matches Some(s) ==> (spec_decode(
            from.encoding,
            str_bytes(k@),
        ) matches Some(kb) && spec_rsa_transcode(from, to, true, kb) matches Some(out) && s@
            == spec_encode(to.encoding, out)))),
        r matches Ok(t) ==> (private_key is None ==> (t.0 matches Some(s) && s@ == Seq::<
            char,
        >::empty())),
        r matches Ok(t) ==> (public_key is None ==> (t.1 matches Some(s) && s@ == Seq::<
            char,
        >::empty())),
        r matches Ok(t) ==> t.0 is Some && t.1 is Some,
        ((match private_key {
            Some(k) => match spec_decode(from.encoding, str_bytes(k@)) {
                Some(kb) => spec_rsa_priv_import(from.pkcs, from.format, kb) is Some,
                None => false,
            },
            None => true,
        }) && (match public_key {
            Some(k) => match spec_decode(from.encoding, str_bytes(k@)) {
                Some(kb) => spec_rsa_pub_import(from.pkcs, from.format, kb) is Some,
                None => false,
            },
            None => true,
        }) && rsa_pair_ok(from, to) && to.encoding != TextEncoding::Utf8) ==> r is Ok,
{
    let private_text: String = match &private_key {
        Some(k) => {
            let key_bytes = from.encoding.decode(k.as_str())?;
            let out = pkcs8_pkcs1_converter_inner(key_bytes.as_slice(), from, to, false)?;
            to.encoding.encode(out.as_slice())?
        },
        None => String::new(),
    };
    let public_text: String = match &public_key {
        Some(k) => {
            let key_bytes = from.encoding.decode(k.as_str())?;
            let out = pkcs8_pkcs1_converter_inner(key_bytes.as_slice(), from, to, true)?;
            to.encoding.encode(out.as_slice())?
        },
        None => String::new(),
    };
    Ok(KeyTuple::new(private_text, public_text))
}

// ---------------------------------------------------------------------------
// Content sniffing.
// ---------------------------------------------------------------------------

/// What `parse_rsa` reports of a key it recognised: the modulus size,
/// the text encoding it arrived in, its container and serialization.
pub struct RsaKeyInfo {
    pub key_size: usize,
    pub encoding: TextEncoding,
    pub pkcs: Pkcs,
    pub format: KeyFormat,
}

/// Whether a serialized document holds an RSA key, private or public,
/// under a container.
pub open spec fn spec_rsa_parses(pkcs: Pkcs, format: KeyFormat, data: Seq<u8>) -> bool {
    spec_rsa_priv_import(pkcs, format, data) is Some || spec_rsa_pub_import(
        pkcs,
        format,
        data,
    ) is Some
}

/// Recognise the container, serialization, modulus size and text
/// encoding of an unknown RSA key: the format-sniffing entry point.
/// The PKCS8 container is tried before PKCS1, and private keys before
/// public ones.
pub fn parse_rsa(input: &str) -> (r: Result<RsaKeyInfo, Error>)
    ensures
        r matches Ok(info) ==> {
            let (bytes, enc) = spec_sniff_bytes(input.spec_bytes());
            &&& info.encoding == enc
            &&& (info.pkcs == Pkcs::Pkcs8 || info.pkcs == Pkcs::Pkcs1)
            &&& spec_rsa_parses(info.pkcs, info.format, bytes)
            &&& (match spec_rsa_priv_import(info.pkcs, info.format, bytes) {
                Some(k) => info.key_size == rsa_priv_bits(k),
                None => (spec_rsa_pub_import(info.pkcs, info.format, bytes) matches Some(k)
                    && info.key_size == rsa_pub_bits(k)),
            })
            &&& (info.format == KeyFormat::Pem ==> crate::codec::utf8_decode(bytes) is Some
                && bytes.len() >= 11 && bytes.subrange(0, 11) == PEM_BEGIN@)
            &&& (info.format == KeyFormat::Der ==> crate::codec::utf8_decode(bytes) is None)
        },
        ({
            let (bytes, enc) = spec_sniff_bytes(input.spec_bytes());
            crate::codec::utf8_decode(bytes) is None && (spec_rsa_parses(
                Pkcs::Pkcs8,
                KeyFormat::Der,
                bytes,
            ) || spec_rsa_parses(Pkcs::Pkcs1, KeyFormat::Der, bytes))
        }) ==> r is Ok,
        ({
            let (bytes, enc) = spec_sniff_bytes(input.spec_bytes());
            crate::codec::utf8_decode(bytes) is Some && bytes.len() >= 11 && bytes.subrange(0, 11)
                == PEM_BEGIN@ && (spec_rsa_parses(Pkcs::Pkcs8, KeyFormat::Pem, bytes)
                || spec_rsa_parses(Pkcs::Pkcs1, KeyFormat::Pem, bytes))
        }) ==> r is Ok,
{
    let (key, encoding) = match base64_decode(input.as_bytes()) {
        Some(v) => (v, TextEncoding::Base64),
        None => (vstd::slice::slice_to_vec(input.as_bytes()), TextEncoding::Utf8),
    };
    let format = if string_encode(key.as_slice()).is_ok() {
        if key.len() >= 11 && bytes_eq(
            vstd::slice::slice_subrange(key.as_slice(), 0, 11),
            PEM_BEGIN.as_slice(),
        ) {
            KeyFormat::Pem
        } else {
            return Err(Error::Unsupported(String::from_str("unknown key content")));
        }
    } else {
        KeyFormat::Der
    };
    proof {
        assert(spec_sniff_bytes(input.spec_bytes()) == (key@, encoding));
    }
    match parse_key_size(key.as_slice(), Pkcs::Pkcs8, format) {
        Ok(key_size) => {
            return Ok(RsaKeyInfo { key_size, encoding, pkcs: Pkcs::Pkcs8, format });
        },
        Err(_) => {},
    }
    match parse_key_size(key.as_slice(), Pkcs::Pkcs1, format) {
        Ok(key_size) => {
            return Ok(RsaKeyInfo { key_size, encoding, pkcs: Pkcs::Pkcs1, format });
        },
        Err(_) => {},
    }
    Err(Error::Unsupported(String::from_str("no supported container parses this key")))
}

} // verus!
