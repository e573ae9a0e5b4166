//! The key-derivation layer: HKDF, the single-step concatenation KDF,
//! PBKDF2 and scrypt, generic over seven digests.
//!
//! Defaulting of absent salt and info, the salt requirements of the
//! password-based functions and the output-length limits are verified;
//! the derivations themselves stand behind trusted wrappers, one per
//! digest and function. Every derivation is a pure function of its
//! arguments, which is what makes ECIES work: both sides reconstruct the
//! same key from the same shared secret.

use vstd::prelude::*;

use crate::codec::{spec_decode, spec_encode};
use crate::crypto::{str_bytes, EncryptionDto};
use crate::enums::{Digest, Kdf, TextEncoding};
use crate::errors::Error;

verus! {

/// The PBKDF2 iteration count of the standalone derivation entry point.
pub const KDF_PBKDF2_ROUNDS: u32 = 600000;

/// The PBKDF2 iteration count ECIES uses to expand a Curve25519 shared
/// secret.
pub const ECIES_PBKDF2_ROUNDS: u32 = 210000;

/// The fixed salt ECIES uses to expand a Curve25519 shared secret:
/// the ASCII bytes of `VSPDJrx1Pj1zqVGN`.
pub const ECIES_KDF_SALT: [u8; 16] = [
    86,
    83,
    80,
    68,
    74,
    114,
    120,
    49,
    80,
    106,
    49,
    122,
    113,
    86,
    71,
    78,
];

/// A stable number for each digest, distinguishing the named derivation
/// results below.
pub open spec fn digest_id(d: Digest) -> int {
    match d {
        Digest::Sha1 => 1,
        Digest::Sha256 => 2,
        Digest::Sha384 => 3,
        Digest::Sha512 => 4,
        Digest::Sha3_256 => 5,
        Digest::Sha3_384 => 6,
        Digest::Sha3_512 => 7,
    }
}

/// What HKDF (RFC 5869) derives: a function of the digest, salt, input
/// key material, context info and output length alone.
pub uninterp spec fn hkdf_of(digest: int, salt: Seq<u8>, ikm: Seq<u8>, info: Seq<u8>, n: nat) -> Seq<
    u8,
>;

/// What the SP 800-56A single-step concatenation KDF derives.
pub uninterp spec fn concat_kdf_of(digest: int, secret: Seq<u8>, info: Seq<u8>, n: nat) -> Seq<u8>;

/// What PBKDF2 derives for a password, salt, round count and length.
pub uninterp spec fn pbkdf2_of(
    digest: int,
    password: Seq<u8>,
    salt: Seq<u8>,
    rounds: int,
    n: nat,
) -> Seq<u8>;

/// What scrypt derives under the library-recommended cost parameters
/// (log2 N = 17, r = 8, p = 1).
pub uninterp spec fn scrypt_of(password: Seq<u8>, salt: Seq<u8>, n: nat) -> Seq<u8>;

// ---------------------------------------------------------------------------
// Trusted wrappers, one per digest and derivation function.
// ---------------------------------------------------------------------------

/// Relies on `hkdf::Hkdf::<sha1::Sha1>`: extract-and-expand, failing
/// only beyond 255 hash blocks of output.
#[verifier::external_body]
fn hkdf_sha1(salt: &[u8], ikm: &[u8], info: &[u8], n: usize) -> (r: Vec<u8>)
    requires
        n <= 255 * 20,
    ensures
        r@ == hkdf_of(1, salt@, ikm@, info@, n as nat),
        r@.len() == n,
{
    let mut okm = vec![0u8; n];
    let h = hkdf::Hkdf::<sha1::Sha1>::new(Some(salt), ikm);
    h.expand(info, &mut okm).expect("output length in range");
    okm
}

/// Relies on `hkdf::Hkdf::<sha2::Sha256>`.
#[verifier::external_body]
fn hkdf_sha256(salt: &[u8], ikm: &[u8], info: &[u8], n: usize) -> (r: Vec<u8>)
    requires
        n <= 255 * 32,
    ensures
        r@ == hkdf_of(2, salt@, ikm@, info@, n as nat),
        r@.len() == n,
{
    let mut okm = vec![0u8; n];
    let h = hkdf::Hkdf::<sha2::Sha256>::new(Some(salt), ikm);
    h.expand(info, &mut okm).expect("output length in range");
    okm
}

/// Relies on `hkdf::Hkdf::<sha2::Sha384>`.
#[verifier::external_body]
fn hkdf_sha384(salt: &[u8], ikm: &[u8], info: &[u8], n: usize) -> (r: Vec<u8>)
    requires
        n <= 255 * 48,
    ensures
        r@ == hkdf_of(3, salt@, ikm@, info@, n as nat),
        r@.len() == n,
{
    let mut okm = vec![0u8; n];
    let h = hkdf::Hkdf::<sha2::Sha384>::new(Some(salt), ikm);
    h.expand(info, &mut okm).expect("output length in range");
    okm
}

/// Relies on `hkdf::Hkdf::<sha2::Sha512>`.
#[verifier::external_body]
fn hkdf_sha512(salt: &[u8], ikm: &[u8], info: &[u8], n: usize) -> (r: Vec<u8>)
    requires
        n <= 255 * 64,
    ensures
        r@ == hkdf_of(4, salt@, ikm@, info@, n as nat),
        r@.len() == n,
{
    let mut okm = vec![0u8; n];
    let h = hkdf::Hkdf::<sha2::Sha512>::new(Some(salt), ikm);
    h.expand(info, &mut okm).expect("output length in range");
    okm
}

/// Relies on `hkdf::Hkdf::<sha3::Sha3_256>`.
#[verifier::external_body]
fn hkdf_sha3_256(salt: &[u8], ikm: &[u8], info: &[u8], n: usize) -> (r: Vec<u8>)
    requires
        n <= 255 * 32,
    ensures
        r@ == hkdf_of(5, salt@, ikm@, info@, n as nat),
        r@.len() == n,
{
    let mut okm = vec![0u8; n];
    let h = hkdf::Hkdf::<sha3::Sha3_256>::new(Some(salt), ikm);
    h.expand(info, &mut okm).expect("output length in range");
    okm
}

/// Relies on `hkdf::Hkdf::<sha3::Sha3_384>`.
#[verifier::external_body]
fn hkdf_sha3_384(salt: &[u8], ikm: &[u8], info: &[u8], n: usize) -> (r: Vec<u8>)
    requires
        n <= 255 * 48,
    ensures
        r@ == hkdf_of(6, salt@, ikm@, info@, n as nat),
        r@.len() == n,
{
    let mut okm = vec![0u8; n];
    let h = hkdf::Hkdf::<sha3::Sha3_384>::new(Some(salt), ikm);
    h.expand(info, &mut okm).expect("output length in range");
    okm
}

/// Relies on `hkdf::Hkdf::<sha3::Sha3_512>`.
#[verifier::external_body]
fn hkdf_sha3_512(salt: &[u8], ikm: &[u8], info: &[u8], n: usize) -> (r: Vec<u8>)
    requires
        n <= 255 * 64,
    ensures
        r@ == hkdf_of(7, salt@, ikm@, info@, n as nat),
        r@.len() == n,
{
    let mut okm = vec![0u8; n];
    let h = hkdf::Hkdf::<sha3::Sha3_512>::new(Some(salt), ikm);
    h.expand(info, &mut okm).expect("output length in range");
    okm
}

/// Relies on `concat_kdf::derive_key_into::<sha1::Sha1>`: counter-mode
/// expansion, demanding a secret and a positive output length.
#[verifier::external_body]
fn concat_kdf_sha1(secret: &[u8], info: &[u8], n: usize) -> (r: Vec<u8>)
    requires
        secret@.len() > 0,
        0 < n < 20 * 0xffffffff,
    ensures
        r@ == concat_kdf_of(1, secret@, info@, n as nat),
        r@.len() == n,
{
    let mut key = vec![0u8; n];
    concat_kdf::derive_key_into::<sha1::Sha1>(secret, info, &mut key).expect("checked arguments");
    key
}

/// Relies on `concat_kdf::derive_key_into::<sha2::Sha256>`.
#[verifier::external_body]
fn concat_kdf_sha256(secret: &[u8], info: &[u8], n: usize) -> (r: Vec<u8>)
    requires
        secret@.len() > 0,
        0 < n < 32 * 0xffffffff,
    ensures
        r@ == concat_kdf_of(2, secret@, info@, n as nat),
        r@.len() == n,
{
    let mut key = vec![0u8; n];
    concat_kdf::derive_key_into::<sha2::Sha256>(secret, info, &mut key).expect("checked arguments");
    key
}

/// Relies on `concat_kdf::derive_key_into::<sha2::Sha384>`.
#[verifier::external_body]
fn concat_kdf_sha384(secret: &[u8], info: &[u8], n: usize) -> (r: Vec<u8>)
    requires
        secret@.len() > 0,
        0 < n < 48 * 0xffffffff,
    ensures
        r@ == concat_kdf_of(3, secret@, info@, n as nat),
        r@.len() == n,
{
    let mut key = vec![0u8; n];
    concat_kdf::derive_key_into::<sha2::Sha384>(secret, info, &mut key).expect("checked arguments");
    key
}

/// Relies on `concat_kdf::derive_key_into::<sha2::Sha512>`.
#[verifier::external_body]
fn concat_kdf_sha512(secret: &[u8], info: &[u8], n: usize) -> (r: Vec<u8>)
    requires
        secret@.len() > 0,
        0 < n < 64 * 0xffffffff,
    ensures
        r@ == concat_kdf_of(4, secret@, info@, n as nat),
        r@.len() == n,
{
    let mut key = vec![0u8; n];
    concat_kdf::derive_key_into::<sha2::Sha512>(secret, info, &mut key).expect("checked arguments");
    key
}

/// Relies on `concat_kdf::derive_key_into::<sha3::Sha3_256>`.
#[verifier::external_body]
fn concat_kdf_sha3_256(secret: &[u8], info: &[u8], n: usize) -> (r: Vec<u8>)
    requires
        secret@.len() > 0,
        0 < n < 32 * 0xffffffff,
    ensures
        r@ == concat_kdf_of(5, secret@, info@, n as nat),
        r@.len() == n,
{
    let mut key = vec![0u8; n];
    concat_kdf::derive_key_into::<sha3::Sha3_256>(secret, info, &mut key).expect(
        "checked arguments",
    );
    key
}

/// Relies on `concat_kdf::derive_key_into::<sha3::Sha3_384>`.
#[verifier::external_body]
fn concat_kdf_sha3_384(secret: &[u8], info: &[u8], n: usize) -> (r: Vec<u8>)
    requires
        secret@.len() > 0,
        0 < n < 48 * 0xffffffff,
    ensures
        r@ == concat_kdf_of(6, secret@, info@, n as nat),
        r@.len() == n,
{
    let mut key = vec![0u8; n];
    concat_kdf::derive_key_into::<sha3::Sha3_384>(secret, info, &mut key).expect(
        "checked arguments",
    );
    key
}

/// Relies on `concat_kdf::derive_key_into::<sha3::Sha3_512>`.
#[verifier::external_body]
fn concat_kdf_sha3_512(secret: &[u8], info: &[u8], n: usize) -> (r: Vec<u8>)
    requires
        secret@.len() > 0,
        0 < n < 64 * 0xffffffff,
    ensures
        r@ == concat_kdf_of(7, secret@, info@, n as nat),
        r@.len() == n,
{
    let mut key = vec![0u8; n];
    concat_kdf::derive_key_into::<sha3::Sha3_512>(secret, info, &mut key).expect(
        "checked arguments",
    );
    key
}

/// Relies on `pbkdf2::pbkdf2` over `Hmac<sha1::Sha1>`: HMAC accepts any
/// password length, so the derivation cannot fail.
#[verifier::external_body]
fn pbkdf2_sha1(password: &[u8], salt: &[u8], rounds: u32, n: usize) -> (r: Vec<u8>)
    ensures
        r@ == pbkdf2_of(1, password@, salt@, rounds as int, n as nat),
        r@.len() == n,
{
    let mut okm = vec![0u8; n];
    pbkdf2::pbkdf2::<hkdf::hmac::Hmac<sha1::Sha1>>(password, salt, rounds, &mut okm).expect(
        "hmac accepts any key length",
    );
    okm
}

/// Relies on `pbkdf2::pbkdf2` over `Hmac<sha2::Sha256>`.
#[verifier::external_body]
fn pbkdf2_sha256(password: &[u8], salt: &[u8], rounds: u32, n: usize) -> (r: Vec<u8>)
    ensures
        r@ == pbkdf2_of(2, password@, salt@, rounds as int, n as nat),
        r@.len() == n,
{
    let mut okm = vec![0u8; n];
    pbkdf2::pbkdf2::<hkdf::hmac::Hmac<sha2::Sha256>>(password, salt, rounds, &mut okm).expect(
        "hmac accepts any key length",
    );
    okm
}

/// Relies on `pbkdf2::pbkdf2` over `Hmac<sha2::Sha384>`.
#[verifier::external_body]
fn pbkdf2_sha384(password: &[u8], salt: &[u8], rounds: u32, n: usize) -> (r: Vec<u8>)
    ensures
        r@ == pbkdf2_of(3, password@, salt@, rounds as int, n as nat),
        r@.len() == n,
{
    let mut okm = vec![0u8; n];
    pbkdf2::pbkdf2::<hkdf::hmac::Hmac<sha2::Sha384>>(password, salt, rounds, &mut okm).expect(
        "hmac accepts any key length",
    );
    okm
}

/// Relies on `pbkdf2::pbkdf2` over `Hmac<sha2::Sha512>`.
#[verifier::external_body]
fn pbkdf2_sha512(password: &[u8], salt: &[u8], rounds: u32, n: usize) -> (r: Vec<u8>)
    ensures
        r@ == pbkdf2_of(4, password@, salt@, rounds as int, n as nat),
        r@.len() == n,
{
    let mut okm = vec![0u8; n];
    pbkdf2::pbkdf2::<hkdf::hmac::Hmac<sha2::Sha512>>(password, salt, rounds, &mut okm).expect(
        "hmac accepts any key length",
    );
    okm
}

/// Relies on `pbkdf2::pbkdf2` over `Hmac<sha3::Sha3_256>`.
#[verifier::external_body]
fn pbkdf2_sha3_256(password: &[u8], salt: &[u8], rounds: u32, n: usize) -> (r: Vec<u8>)
    ensures
        r@ == pbkdf2_of(5, password@, salt@, rounds as int, n as nat),
        r@.len() == n,
{
    let mut okm = vec![0u8; n];
    pbkdf2::pbkdf2::<hkdf::hmac::Hmac<sha3::Sha3_256>>(password, salt, rounds, &mut okm).expect(
        "hmac accepts any key length",
    );
    okm
}

/// Relies on `pbkdf2::pbkdf2` over `Hmac<sha3::Sha3_384>`.
#[verifier::external_body]
fn pbkdf2_sha3_384(password: &[u8], salt: &[u8], rounds: u32, n: usize) -> (r: Vec<u8>)
    ensures
        r@ == pbkdf2_of(6, password@, salt@, rounds as int, n as nat),
        r@.len() == n,
{
    let mut okm = vec![0u8; n];
    pbkdf2::pbkdf2::<hkdf::hmac::Hmac<sha3::Sha3_384>>(password, salt, rounds, &mut okm).expect(
        "hmac accepts any key length",
    );
    okm
}

/// Relies on `pbkdf2::pbkdf2` over `Hmac<sha3::Sha3_512>`.
#[verifier::external_body]
fn pbkdf2_sha3_512(password: &[u8], salt: &[u8], rounds: u32, n: usize) -> (r: Vec<u8>)
    ensures
        r@ == pbkdf2_of(7, password@, salt@, rounds as int, n as nat),
        r@.len() == n,
{
    let mut okm = vec![0u8; n];
    pbkdf2::pbkdf2::<hkdf::hmac::Hmac<sha3::Sha3_512>>(password, salt, rounds, &mut okm).expect(
        "hmac accepts any key length",
    );
    okm
}

/// Relies on `scrypt::scrypt` with `scrypt::Params::recommended()`:
/// fails only on an empty or oversized output buffer.
#[verifier::external_body]
fn scrypt_recommended(password: &[u8], salt: &[u8], n: usize) -> (r: Vec<u8>)
    requires
        n > 0,
        n / 32 <= 0xffffffff,
    ensures
        r@ == scrypt_of(password@, salt@, n as nat),
        r@.len() == n,
{
    let mut okm = vec![0u8; n];
    let params = scrypt::Params::recommended();
    scrypt::scrypt(password, salt, &params, &mut okm).expect("checked output length");
    okm
}

// ---------------------------------------------------------------------------
// Verified dispatch.
// ---------------------------------------------------------------------------

/// An optional byte string, defaulted to empty.
pub open spec fn opt_or_empty(o: Option<Seq<u8>>) -> Seq<u8> {
    match o {
        Some(s) => s,
        None => Seq::empty(),
    }
}

/// The view of an optional byte buffer.
pub open spec fn opt_buf_view(o: Option<Vec<u8>>) -> Option<Seq<u8>> {
    match o {
        Some(v) => Some(v@),
        None => None,
    }
}

/// Whether a derivation request is well formed: PBKDF2 and scrypt demand
/// a salt, the concatenation KDF a secret and a positive length, and
/// each function bounds its output length.
pub open spec fn kdf_args_ok(
    kdf: Kdf,
    digest: Digest,
    input: Seq<u8>,
    salt: Option<Seq<u8>>,
    key_size: nat,
) -> bool {
    match kdf {
        Kdf::HKdf => key_size <= 255 * digest.spec_output_size(),
        Kdf::Concatenation => input.len() > 0 && 0 < key_size < digest.spec_output_size()
            * 0xffffffff,
        Kdf::PbKdf2 => salt is Some,
        Kdf::Scrypt => salt is Some && 0 < key_size && key_size / 32 <= 0xffffffff,
    }
}

/// What a well-formed derivation request returns.
pub open spec fn spec_kdf_output(
    kdf: Kdf,
    digest: Digest,
    input: Seq<u8>,
    salt: Option<Seq<u8>>,
    info: Option<Seq<u8>>,
    key_size: nat,
) -> Seq<u8> {
    match kdf {
        Kdf::HKdf => hkdf_of(
            digest_id(digest),
            opt_or_empty(salt),
            input,
            opt_or_empty(info),
            key_size,
        ),
        Kdf::Concatenation => concat_kdf_of(digest_id(digest), input, opt_or_empty(info), key_size),
        Kdf::PbKdf2 => pbkdf2_of(
            digest_id(digest),
            input,
            opt_or_empty(salt),
            KDF_PBKDF2_ROUNDS as int,
            key_size,
        ),
        Kdf::Scrypt => scrypt_of(input, opt_or_empty(salt), key_size),
    }
}

/// Run HKDF under the digest the request names.
fn run_hkdf(digest: Digest, salt: &[u8], ikm: &[u8], info: &[u8], n: usize) -> (r: Vec<u8>)
    requires
        n <= 255 * digest.spec_output_size(),
    ensures
        r@ == hkdf_of(digest_id(digest), salt@, ikm@, info@, n as nat),
        r@.len() == n,
{
    match digest {
        Digest::Sha1 => hkdf_sha1(salt, ikm, info, n),
        Digest::Sha256 => hkdf_sha256(salt, ikm, info, n),
        Digest::Sha384 => hkdf_sha384(salt, ikm, info, n),
        Digest::Sha512 => hkdf_sha512(salt, ikm, info, n),
        Digest::Sha3_256 => hkdf_sha3_256(salt, ikm, info, n),
        Digest::Sha3_384 => hkdf_sha3_384(salt, ikm, info, n),
        Digest::Sha3_512 => hkdf_sha3_512(salt, ikm, info, n),
    }
}

/// Run the concatenation KDF under the digest the request names.
fn run_concat_kdf(digest: Digest, secret: &[u8], info: &[u8], n: usize) -> (r: Vec<u8>)
    requires
        secret@.len() > 0,
        0 < n < digest.spec_output_size() * 0xffffffff,
    ensures
        r@ == concat_kdf_of(digest_id(digest), secret@, info@, n as nat),
        r@.len() == n,
{
    match digest {
        Digest::Sha1 => concat_kdf_sha1(secret, info, n),
        Digest::Sha256 => concat_kdf_sha256(secret, info, n),
        Digest::Sha384 => concat_kdf_sha384(secret, info, n),
        Digest::Sha512 => concat_kdf_sha512(secret, info, n),
        Digest::Sha3_256 => concat_kdf_sha3_256(secret, info, n),
        Digest::Sha3_384 => concat_kdf_sha3_384(secret, info, n),
        Digest::Sha3_512 => concat_kdf_sha3_512(secret, info, n),
    }
}

/// Run PBKDF2 under the digest the request names.
pub fn run_pbkdf2(digest: Digest, password: &[u8], salt: &[u8], rounds: u32, n: usize) -> (r: Vec<
    u8,
>)
    ensures
        r@ == pbkdf2_of(digest_id(digest), password@, salt@, rounds as int, n as nat),
        r@.len() == n,
{
    match digest {
        Digest::Sha1 => pbkdf2_sha1(password, salt, rounds, n),
        Digest::Sha256 => pbkdf2_sha256(password, salt, rounds, n),
        Digest::Sha384 => pbkdf2_sha384(password, salt, rounds, n),
        Digest::Sha512 => pbkdf2_sha512(password, salt, rounds, n),
        Digest::Sha3_256 => pbkdf2_sha3_256(password, salt, rounds, n),
        Digest::Sha3_384 => pbkdf2_sha3_384(password, salt, rounds, n),
        Digest::Sha3_512 => pbkdf2_sha3_512(password, salt, rounds, n),
    }
}

/// Derive `key_size` bytes from the input under the KDF and digest the
/// request names, defaulting absent salt and info where the function
/// takes them and rejecting requests the function cannot serve.
pub fn kdf_inner_digest(
    kdf: Kdf,
    digest: Digest,
    input: &[u8],
    salt: Option<Vec<u8>>,
    info: Option<Vec<u8>>,
    key_size: usize,
) -> (r: Result<Vec<u8>, Error>)
    ensures
        r matches Ok(v) ==> v@ == spec_kdf_output(
            kdf,
            digest,
            input@,
            opt_buf_view(salt),
            opt_buf_view(info),
            key_size as nat,
        ) && v@.len() == key_size,
        r is Ok <==> kdf_args_ok(kdf, digest, input@, opt_buf_view(salt), key_size as nat),
        r matches Err(e) ==> e is Validation,
{
    let had_salt = salt.is_some();
    let salt_bytes = match salt {
        Some(v) => v,
        None => Vec::new(),
    };
    let info_bytes = match info {
        Some(v) => v,
        None => Vec::new(),
    };
    match kdf {
        Kdf::HKdf => {
            if key_size > 255 * digest.output_size() {
                return Err(Error::Validation(String::from_str("hkdf output too long")));
            }
            Ok(run_hkdf(digest, salt_bytes.as_slice(), input, info_bytes.as_slice(), key_size))
        },
        Kdf::Concatenation => {
            if input.len() == 0 {
                return Err(Error::Validation(String::from_str("concatenation kdf needs a secret")));
            }
            if key_size == 0 {
                return Err(
                    Error::Validation(String::from_str("concatenation kdf needs a length")),
                );
            }
            if key_size as u64 >= (digest.output_size() as u64) * 0xffffffffu64 {
                return Err(
                    Error::Validation(String::from_str("concatenation kdf output too long")),
                );
            }
            Ok(run_concat_kdf(digest, input, info_bytes.as_slice(), key_size))
        },
        Kdf::PbKdf2 => {
            if !had_salt {
                return Err(Error::Validation(String::from_str("pbkdf2 salt is required")));
            }
            Ok(run_pbkdf2(digest, input, salt_bytes.as_slice(), KDF_PBKDF2_ROUNDS, key_size))
        },
        Kdf::Scrypt => {
            if !had_salt {
                return Err(Error::Validation(String::from_str("scrypt salt is required")));
            }
            if key_size == 0 {
                return Err(Error::Validation(String::from_str("scrypt needs a length")));
            }
            if key_size / 32 > 0xffffffffusize {
                return Err(Error::Validation(String::from_str("scrypt output too long")));
            }
            Ok(scrypt_recommended(input, salt_bytes.as_slice(), key_size))
        },
    }
}

/// Key derivation is deterministic: two derivations under the same
/// function, digest, input, salt, info and length are byte-identical.
/// This is what lets the receiving side of ECIES reconstruct the exact
/// AEAD key without it ever being transmitted.
pub proof fn lemma_kdf_deterministic(
    kdf: Kdf,
    digest: Digest,
    input: Seq<u8>,
    salt: Option<Seq<u8>>,
    info: Option<Seq<u8>>,
    key_size: nat,
    first: Seq<u8>,
    second: Seq<u8>,
)
    requires
        first == spec_kdf_output(kdf, digest, input, salt, info, key_size),
        second == spec_kdf_output(kdf, digest, input, salt, info, key_size),
    ensures
        first == second,
{
}

/// A derivation request: the function and digest to run, the input
/// keying material and optional salt and info as text, and the output
/// length and encoding.
pub struct KdfDto {
    pub kdf: Kdf,
    pub digest: Digest,
    pub input: String,
    pub input_encoding: TextEncoding,
    pub salt: Option<String>,
    pub salt_encoding: Option<TextEncoding>,
    pub info: Option<String>,
    pub info_encoding: Option<TextEncoding>,
    pub output_encoding: TextEncoding,
    pub key_length: usize,
}

/// An optional text field of a derivation request, decoded: present
/// exactly where the value and its encoding are given and the text
/// decodes.
pub open spec fn spec_kdf_opt_field(val: Option<String>, enc: Option<TextEncoding>) -> Option<
    Seq<u8>,
> {
    match (val, enc) {
        (Some(s), Some(e)) => spec_decode(e, str_bytes(s@)),
        _ => None,
    }
}

/// Decode an optional text field of a derivation request.
fn decode_kdf_opt_field(val: &Option<String>, enc: &Option<TextEncoding>) -> (r: Option<Vec<u8>>)
    ensures
        opt_buf_view(r) == spec_kdf_opt_field(*val, *enc),
{
    match (val, enc) {
        (Some(s), Some(e)) => match e.decode(s.as_str()) {
            Ok(v) => Some(v),
            Err(_) => None,
        },
        _ => None,
    }
}

impl KdfDto {
    /// The input keying material of the request.
    pub fn input_bytes(&self) -> (r: Result<Vec<u8>, Error>)
        ensures
            r matches Ok(v) ==> spec_decode(self.input_encoding, str_bytes(self.input@)) == Some(
                v@,
            ),
            r is Ok <==> spec_decode(self.input_encoding, str_bytes(self.input@)) is Some,
    {
        self.input_encoding.decode(self.input.as_str())
    }
}

impl EncryptionDto for KdfDto {
    fn get_input(&self) -> Result<Vec<u8>, Error> {
        self.input_bytes()
    }

    /// A derivation request carries no key.
    fn get_key(&self) -> Result<Vec<u8>, Error> {
        Err(Error::Unsupported(String::from_str("a kdf request has no key")))
    }

    fn get_output_encoding(&self) -> TextEncoding {
        self.output_encoding
    }
}

/// Run one derivation request given as text: decode its fields,
/// derive, and render the answer in the requested encoding.
pub fn kdf(data: &KdfDto) -> (r: Result<String, Error>)
    ensures
        r matches Ok(s) ==> (spec_decode(data.input_encoding, str_bytes(data.input@)) matches Some(
            input,
        ) && kdf_args_ok(
            data.kdf,
            data.digest,
            input,
            spec_kdf_opt_field(data.salt, data.salt_encoding),
            data.key_length as nat,
        ) && s@ == spec_encode(
            data.output_encoding,
            spec_kdf_output(
                data.kdf,
                data.digest,
                input,
                spec_kdf_opt_field(data.salt, data.salt_encoding),
                spec_kdf_opt_field(data.info, data.info_encoding),
                data.key_length as nat,
            ),
        )),
        r matches Ok(s) ==> (spec_decode(data.input_encoding, str_bytes(data.input@)) matches Some(
            input,
        ) && spec_decode(data.output_encoding, str_bytes(s@)) matches Some(okm) && okm
            == spec_kdf_output(
            data.kdf,
            data.digest,
            input,
            spec_kdf_opt_field(data.salt, data.salt_encoding),
            spec_kdf_opt_field(data.info, data.info_encoding),
            data.key_length as nat,
        ) && okm.len() == data.key_length),
        (spec_decode(data.input_encoding, str_bytes(data.input@)) matches Some(input)
            && kdf_args_ok(
            data.kdf,
            data.digest,
            input,
            spec_kdf_opt_field(data.salt, data.salt_encoding),
            data.key_length as nat,
        ) && data.output_encoding != TextEncoding::Utf8) ==> r is Ok,
{
    let input = data.input_bytes()?;
    let salt = decode_kdf_opt_field(&data.salt, &data.salt_encoding);
    let info = decode_kdf_opt_field(&data.info, &data.info_encoding);
    let output = kdf_inner_digest(
        data.kdf,
        data.digest,
        input.as_slice(),
        salt,
        info,
        data.key_length,
    )?;
    data.output_encoding.encode(output.as_slice())
}

} // verus!
