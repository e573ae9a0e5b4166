//! The symmetric-cipher layer: AES in ECB, CBC and GCM modes.
//!
//! Request validation, padding and mode dispatch are verified; the block
//! cipher itself stands behind trusted wrappers, one per key size, mode
//! and direction. For fixed key (and IV, and for GCM nonce and associated
//! data) each raw cipher call is a deterministic, injective function of
//! its input, which is what the wrapper contracts state; everything else
//! is proved from them.

use aes::cipher::block_padding::NoPadding;
use aes::cipher::{BlockDecryptMut, BlockEncryptMut, KeyInit, KeyIvInit};
use aes_gcm::aead::{Aead, Payload};
use vstd::prelude::*;

use crate::codec::{spec_decode, spec_encode, spec_encode_ok};
use crate::common::random_bytes;
use crate::crypto::{str_bytes, EncryptionDto};
use crate::enums::{AesEncryptionPadding, EncryptionMode, TextEncoding};
use crate::errors::Error;
use crate::padding::{pkcs7_pad, pkcs7_pad_vec, pkcs7_unpad, pkcs7_unpad_vec};

verus! {

/// AES-ECB encryption of whole blocks: a function of the key (16 or 32
/// bytes, selecting AES-128 or AES-256) and the data.
pub uninterp spec fn aes_ecb_enc(key: Seq<u8>, data: Seq<u8>) -> Seq<u8>;

/// AES-CBC encryption of whole blocks under a 16-byte IV.
pub uninterp spec fn aes_cbc_enc(key: Seq<u8>, iv: Seq<u8>, data: Seq<u8>) -> Seq<u8>;

/// AES-GCM sealing: the ciphertext plus 16-byte tag for a key, a 12-byte
/// nonce, associated data and a plaintext.
pub uninterp spec fn aes_gcm_seal(key: Seq<u8>, nonce: Seq<u8>, aad: Seq<u8>, pt: Seq<u8>) -> Seq<
    u8,
>;

/// The block string whose ECB encryption under this key is `ct`.
pub open spec fn ecb_inverse(key: Seq<u8>, ct: Seq<u8>) -> Seq<u8> {
    choose|m: Seq<u8>| m.len() == ct.len() && aes_ecb_enc(key, m) == ct
}

/// The block string whose CBC encryption under this key and IV is `ct`.
pub open spec fn cbc_inverse(key: Seq<u8>, iv: Seq<u8>, ct: Seq<u8>) -> Seq<u8> {
    choose|m: Seq<u8>| m.len() == ct.len() && aes_cbc_enc(key, iv, m) == ct
}

/// The plaintext a GCM ciphertext opens to, or `None` where it is the
/// sealing of no plaintext at all (a missing, truncated or forged tag).
pub open spec fn gcm_opened(key: Seq<u8>, nonce: Seq<u8>, aad: Seq<u8>, ct: Seq<u8>) -> Option<
    Seq<u8>,
> {
    if exists|p: Seq<u8>| p.len() + 16 == ct.len() && aes_gcm_seal(key, nonce, aad, p) == ct {
        Some(choose|p: Seq<u8>| p.len() + 16 == ct.len() && aes_gcm_seal(key, nonce, aad, p) == ct)
    } else {
        None
    }
}

// ---------------------------------------------------------------------------
// Trusted wrappers, one per key size, mode and direction.
// ---------------------------------------------------------------------------

/// Relies on `aes::Aes128` through `cipher`'s `encrypt_padded_vec_mut`
/// over `NoPadding`: ECB keeps the length and is injective per key.
#[verifier::external_body]
fn aes128_ecb_encrypt(key: &[u8], data: &[u8]) -> (r: Vec<u8>)
    requires
        key@.len() == 16,
        data@.len() % 16 == 0,
    ensures
        r@ == aes_ecb_enc(key@, data@),
        r@.len() == data@.len(),
        forall|m: Seq<u8>| m.len() == r@.len() && aes_ecb_enc(key@, m) == r@ ==> m == data@,
{
    let c = aes::Aes128::new_from_slice(key).expect("checked key length");
    c.encrypt_padded_vec_mut::<NoPadding>(data)
}

/// Relies on `aes::Aes256` through `cipher`'s `encrypt_padded_vec_mut`
/// over `NoPadding`: ECB keeps the length and is injective per key.
#[verifier::external_body]
fn aes256_ecb_encrypt(key: &[u8], data: &[u8]) -> (r: Vec<u8>)
    requires
        key@.len() == 32,
        data@.len() % 16 == 0,
    ensures
        r@ == aes_ecb_enc(key@, data@),
        r@.len() == data@.len(),
        forall|m: Seq<u8>| m.len() == r@.len() && aes_ecb_enc(key@, m) == r@ ==> m == data@,
{
    let c = aes::Aes256::new_from_slice(key).expect("checked key length");
    c.encrypt_padded_vec_mut::<NoPadding>(data)
}

/// Relies on `aes::Aes128` through `cipher`'s `decrypt_padded_vec_mut`
/// over `NoPadding`: block decryption inverts `aes_ecb_enc`.
#[verifier::external_body]
fn aes128_ecb_decrypt(key: &[u8], data: &[u8]) -> (r: Vec<u8>)
    requires
        key@.len() == 16,
        data@.len() % 16 == 0,
    ensures
        r@.len() == data@.len(),
        aes_ecb_enc(key@, r@) == data@,
        forall|m: Seq<u8>| m.len() == data@.len() && aes_ecb_enc(key@, m) == data@ ==> m == r@,
{
    let c = aes::Aes128::new_from_slice(key).expect("checked key length");
    c.decrypt_padded_vec_mut::<NoPadding>(data).expect("whole blocks").to_vec()
}

/// Relies on `aes::Aes256` through `cipher`'s `decrypt_padded_vec_mut`
/// over `NoPadding`: block decryption inverts `aes_ecb_enc`.
#[verifier::external_body]
fn aes256_ecb_decrypt(key: &[u8], data: &[u8]) -> (r: Vec<u8>)
    requires
        key@.len() == 32,
        data@.len() % 16 == 0,
    ensures
        r@.len() == data@.len(),
        aes_ecb_enc(key@, r@) == data@,
        forall|m: Seq<u8>| m.len() == data@.len() && aes_ecb_enc(key@, m) == data@ ==> m == r@,
{
    let c = aes::Aes256::new_from_slice(key).expect("checked key length");
    c.decrypt_padded_vec_mut::<NoPadding>(data).expect("whole blocks").to_vec()
}

/// Relies on `cbc::Encryptor<aes::Aes128>`: CBC keeps the length and is
/// injective per key and IV.
#[verifier::external_body]
fn aes128_cbc_encrypt(key: &[u8], iv: &[u8], data: &[u8]) -> (r: Vec<u8>)
    requires
        key@.len() == 16,
        iv@.len() == 16,
        data@.len() % 16 == 0,
    ensures
        r@ == aes_cbc_enc(key@, iv@, data@),
        r@.len() == data@.len(),
        forall|m: Seq<u8>| m.len() == r@.len() && aes_cbc_enc(key@, iv@, m) == r@ ==> m == data@,
{
    let c = cbc::Encryptor::<aes::Aes128>::new_from_slices(key, iv).expect("checked lengths");
    c.encrypt_padded_vec_mut::<NoPadding>(data)
}

/// Relies on `cbc::Encryptor<aes::Aes256>`: CBC keeps the length and is
/// injective per key and IV.
#[verifier::external_body]
fn aes256_cbc_encrypt(key: &[u8], iv: &[u8], data: &[u8]) -> (r: Vec<u8>)
    requires
        key@.len() == 32,
        iv@.len() == 16,
        data@.len() % 16 == 0,
    ensures
        r@ == aes_cbc_enc(key@, iv@, data@),
        r@.len() == data@.len(),
        forall|m: Seq<u8>| m.len() == r@.len() && aes_cbc_enc(key@, iv@, m) == r@ ==> m == data@,
{
    let c = cbc::Encryptor::<aes::Aes256>::new_from_slices(key, iv).expect("checked lengths");
    c.encrypt_padded_vec_mut::<NoPadding>(data)
}

/// Relies on `cbc::Decryptor<aes::Aes128>`: CBC decryption inverts
/// `aes_cbc_enc`.
#[verifier::external_body]
fn aes128_cbc_decrypt(key: &[u8], iv: &[u8], data: &[u8]) -> (r: Vec<u8>)
    requires
        key@.len() == 16,
        iv@.len() == 16,
        data@.len() % 16 == 0,
    ensures
        r@.len() == data@.len(),
        aes_cbc_enc(key@, iv@, r@) == data@,
        forall|m: Seq<u8>| m.len() == data@.len() && aes_cbc_enc(key@, iv@, m) == data@ ==> m == r@,
{
    let c = cbc::Decryptor::<aes::Aes128>::new_from_slices(key, iv).expect("checked lengths");
    c.decrypt_padded_vec_mut::<NoPadding>(data).expect("whole blocks")
}

/// Relies on `cbc::Decryptor<aes::Aes256>`: CBC decryption inverts
/// `aes_cbc_enc`.
#[verifier::external_body]
fn aes256_cbc_decrypt(key: &[u8], iv: &[u8], data: &[u8]) -> (r: Vec<u8>)
    requires
        key@.len() == 32,
        iv@.len() == 16,
        data@.len() % 16 == 0,
    ensures
        r@.len() == data@.len(),
        aes_cbc_enc(key@, iv@, r@) == data@,
        forall|m: Seq<u8>| m.len() == data@.len() && aes_cbc_enc(key@, iv@, m) == data@ ==> m == r@,
{
    let c = cbc::Decryptor::<aes::Aes256>::new_from_slices(key, iv).expect("checked lengths");
    c.decrypt_padded_vec_mut::<NoPadding>(data).expect("whole blocks")
}

/// Relies on `aes_gcm::Aes128Gcm` through `aead::Aead::encrypt`: sealing
/// appends a 16-byte tag and is injective in the plaintext per key,
/// nonce and associated data.
#[verifier::external_body]
fn aes128_gcm_seal(key: &[u8], nonce: &[u8], aad: &[u8], pt: &[u8]) -> (r: Vec<u8>)
    requires
        key@.len() == 16,
        nonce@.len() == 12,
        pt@.len() < 0x1000000000,
        aad@.len() < 0x1000000000,
    ensures
        r@ == aes_gcm_seal(key@, nonce@, aad@, pt@),
        r@.len() == pt@.len() + 16,
        forall|p: Seq<u8>| p.len() == pt@.len() && aes_gcm_seal(key@, nonce@, aad@, p) == r@ ==> p
            == pt@,
{
    let c = aes_gcm::Aes128Gcm::new_from_slice(key).expect("checked key length");
    c.encrypt(aes_gcm::Nonce::from_slice(nonce), Payload { msg: pt, aad }).expect("length in range")
}

/// Relies on `aes_gcm::Aes256Gcm` through `aead::Aead::encrypt`: sealing
/// appends a 16-byte tag and is injective in the plaintext per key,
/// nonce and associated data.
#[verifier::external_body]
fn aes256_gcm_seal(key: &[u8], nonce: &[u8], aad: &[u8], pt: &[u8]) -> (r: Vec<u8>)
    requires
        key@.len() == 32,
        nonce@.len() == 12,
        pt@.len() < 0x1000000000,
        aad@.len() < 0x1000000000,
    ensures
        r@ == aes_gcm_seal(key@, nonce@, aad@, pt@),
        r@.len() == pt@.len() + 16,
        forall|p: Seq<u8>| p.len() == pt@.len() && aes_gcm_seal(key@, nonce@, aad@, p) == r@ ==> p
            == pt@,
{
    let c = aes_gcm::Aes256Gcm::new_from_slice(key).expect("checked key length");
    c.encrypt(aes_gcm::Nonce::from_slice(nonce), Payload { msg: pt, aad }).expect("length in range")
}

/// Relies on `aes_gcm::Aes128Gcm` through `aead::Aead::decrypt`: opening
/// succeeds exactly on the ciphertexts that sealing produces, and
/// returns the plaintext that was sealed.
#[verifier::external_body]
fn aes128_gcm_open(key: &[u8], nonce: &[u8], aad: &[u8], ct: &[u8]) -> (r: Option<Vec<u8>>)
    requires
        key@.len() == 16,
        nonce@.len() == 12,
    ensures
        r matches Some(p) ==> gcm_opened(key@, nonce@, aad@, ct@) == Some(p@),
        r is Some <==> gcm_opened(key@, nonce@, aad@, ct@) is Some,
{
    let c = aes_gcm::Aes128Gcm::new_from_slice(key).ok()?;
    c.decrypt(aes_gcm::Nonce::from_slice(nonce), Payload { msg: ct, aad }).ok()
}

/// Relies on `aes_gcm::Aes256Gcm` through `aead::Aead::decrypt`: opening
/// succeeds exactly on the ciphertexts that sealing produces, and
/// returns the plaintext that was sealed.
#[verifier::external_body]
fn aes256_gcm_open(key: &[u8], nonce: &[u8], aad: &[u8], ct: &[u8]) -> (r: Option<Vec<u8>>)
    requires
        key@.len() == 32,
        nonce@.len() == 12,
    ensures
        r matches Some(p) ==> gcm_opened(key@, nonce@, aad@, ct@) == Some(p@),
        r is Some <==> gcm_opened(key@, nonce@, aad@, ct@) is Some,
{
    let c = aes_gcm::Aes256Gcm::new_from_slice(key).ok()?;
    c.decrypt(aes_gcm::Nonce::from_slice(nonce), Payload { msg: ct, aad }).ok()
}

// ---------------------------------------------------------------------------
// Verified dispatch.
// ---------------------------------------------------------------------------

/// The view of an optional byte buffer.
pub open spec fn opt_view(o: Option<Vec<u8>>) -> Option<Seq<u8>> {
    match o {
        Some(v) => Some(v@),
        None => None,
    }
}

/// An optional byte buffer, defaulted to empty.
pub open spec fn opt_bytes(o: Option<Seq<u8>>) -> Seq<u8> {
    match o {
        Some(s) => s,
        None => Seq::empty(),
    }
}

/// Whether a symmetric request is well formed: the key selects AES-128
/// or AES-256; ECB takes no IV, CBC a 16-byte one, GCM a 12-byte nonce;
/// GCM takes no padding scheme; under `NoPadding` the input must fill
/// whole blocks; and the padded or sealed output must fit in memory.
pub open spec fn aes_args_ok(
    mode: EncryptionMode,
    padding: AesEncryptionPadding,
    key: Seq<u8>,
    iv: Option<Seq<u8>>,
    aad: Option<Seq<u8>>,
    input: Seq<u8>,
    for_encryption: bool,
) -> bool {
    &&& (key.len() == 16 || key.len() == 32)
    &&& match mode {
        EncryptionMode::Ecb => iv is None,
        EncryptionMode::Cbc => iv matches Some(v) && v.len() == 16,
        EncryptionMode::Gcm => iv matches Some(v) && v.len() == 12,
    }
    &&& (mode == EncryptionMode::Gcm ==> padding == AesEncryptionPadding::NoPadding)
    &&& (mode != EncryptionMode::Gcm && padding == AesEncryptionPadding::NoPadding ==> input.len()
        % 16 == 0)
    &&& (mode != EncryptionMode::Gcm && padding == AesEncryptionPadding::Pkcs7Padding
        && for_encryption ==> input.len() + 16 <= usize::MAX)
    &&& (mode == EncryptionMode::Gcm && for_encryption ==> input.len() < 0x1000000000)
    &&& (mode == EncryptionMode::Gcm ==> opt_bytes(aad).len() < 0x1000000000)
}

/// The byte length of the ciphertext a well-formed encryption
/// produces: GCM appends a 16-byte tag, PKCS#7 pads to the next block
/// boundary, and plain block encryption keeps the length.
pub open spec fn spec_aes_ct_len(
    mode: EncryptionMode,
    padding: AesEncryptionPadding,
    n: nat,
) -> int {
    match mode {
        EncryptionMode::Gcm => n + 16 as int,
        _ => if padding == AesEncryptionPadding::Pkcs7Padding {
            n + 16 - (n % 16) as int
        } else {
            n as int
        },
    }
}

/// What a well-formed symmetric request returns: the ciphertext for an
/// encryption, the unique matching plaintext for a decryption, and
/// `None` exactly where decryption must fail closed (a forged GCM tag,
/// an invalid PKCS#7 pad, a ciphertext off the block boundary).
pub open spec fn spec_aes_output(
    mode: EncryptionMode,
    padding: AesEncryptionPadding,
    key: Seq<u8>,
    iv: Option<Seq<u8>>,
    aad: Option<Seq<u8>>,
    input: Seq<u8>,
    for_encryption: bool,
) -> Option<Seq<u8>> {
    if for_encryption {
        match mode {
            EncryptionMode::Ecb => Some(
                aes_ecb_enc(
                    key,
                    if padding == AesEncryptionPadding::Pkcs7Padding {
                        pkcs7_pad(input)
                    } else {
                        input
                    },
                ),
            ),
            EncryptionMode::Cbc => Some(
                aes_cbc_enc(
                    key,
                    opt_bytes(iv),
                    if padding == AesEncryptionPadding::Pkcs7Padding {
                        pkcs7_pad(input)
                    } else {
                        input
                    },
                ),
            ),
            EncryptionMode::Gcm => Some(aes_gcm_seal(key, opt_bytes(iv), opt_bytes(aad), input)),
        }
    } else {
        match mode {
            EncryptionMode::Ecb => {
                if input.len() % 16 != 0 {
                    None
                } else if padding == AesEncryptionPadding::Pkcs7Padding {
                    pkcs7_unpad(ecb_inverse(key, input))
                } else {
                    Some(ecb_inverse(key, input))
                }
            },
            EncryptionMode::Cbc => {
                if input.len() % 16 != 0 {
                    None
                } else if padding == AesEncryptionPadding::Pkcs7Padding {
                    pkcs7_unpad(cbc_inverse(key, opt_bytes(iv), input))
                } else {
                    Some(cbc_inverse(key, opt_bytes(iv), input))
                }
            },
            EncryptionMode::Gcm => gcm_opened(key, opt_bytes(iv), opt_bytes(aad), input),
        }
    }
}

/// Run one symmetric request: validate it, pad or unpad as the scheme
/// says, and encrypt or decrypt under the mode the request names.
/// Decryption is pinned as the unique inverse of encryption, and
/// decrypting what a well-formed encryption produced gives the
/// plaintext back, whatever the mode, padding and key size.
pub fn encrypt_or_decrypt_aes(
    mode: EncryptionMode,
    input: &[u8],
    key: &[u8],
    iv: Option<Vec<u8>>,
    aad: Option<Vec<u8>>,
    padding: AesEncryptionPadding,
    for_encryption: bool,
) -> (r: Result<Vec<u8>, Error>)
    ensures
        !aes_args_ok(mode, padding, key@, opt_view(iv), opt_view(aad), input@, for_encryption)
            ==> r is Err,
        aes_args_ok(mode, padding, key@, opt_view(iv), opt_view(aad), input@, for_encryption)
            ==> match r {
            Ok(v) => spec_aes_output(
                mode,
                padding,
                key@,
                opt_view(iv),
                opt_view(aad),
                input@,
                for_encryption,
            ) == Some(v@),
            Err(e) => spec_aes_output(
                mode,
                padding,
                key@,
                opt_view(iv),
                opt_view(aad),
                input@,
                for_encryption,
            ) is None && e is CryptoFailed,
        },
        !(key@.len() == 16 || key@.len() == 32) ==> (r matches Err(e) && e is Unsupported),
        for_encryption && aes_args_ok(
            mode,
            padding,
            key@,
            opt_view(iv),
            opt_view(aad),
            input@,
            true,
        ) ==> (r matches Ok(v) ==> spec_aes_output(
            mode,
            padding,
            key@,
            opt_view(iv),
            opt_view(aad),
            v@,
            false,
        ) == Some(input@) && v@.len() == spec_aes_ct_len(mode, padding, input@.len())),
        (key@.len() == 16 || key@.len() == 32) && !aes_args_ok(
            mode,
            padding,
            key@,
            opt_view(iv),
            opt_view(aad),
            input@,
            for_encryption,
        ) ==> (r matches Err(e) && e is Validation),
{
    let key_len = key.len();
    if key_len != 16 && key_len != 32 {
        return Err(Error::Unsupported(String::from_str("aes key size")));
    }
    match mode {
        EncryptionMode::Ecb => {
            if iv.is_some() {
                return Err(Error::Validation(String::from_str("ecb takes no iv")));
            }
            let data = match prepare_block_input(input, padding, for_encryption)? {
                Some(d) => d,
                None => {
                    return Err(Error::CryptoFailed);
                },
            };
            let raw = if for_encryption {
                if key_len == 16 {
                    aes128_ecb_encrypt(key, data.as_slice())
                } else {
                    aes256_ecb_encrypt(key, data.as_slice())
                }
            } else {
                if key_len == 16 {
                    aes128_ecb_decrypt(key, data.as_slice())
                } else {
                    aes256_ecb_decrypt(key, data.as_slice())
                }
            };
            if !for_encryption {
                proof {
                    assert(ecb_inverse(key@, input@) == raw@);
                }
                if padding == AesEncryptionPadding::Pkcs7Padding {
                    return pkcs7_unpad_vec(raw.as_slice());
                }
            } else {
                proof {
                    assert(ecb_inverse(key@, raw@) == data@);
                    if padding == AesEncryptionPadding::Pkcs7Padding {
                        crate::padding::lemma_pkcs7_round_trip(input@);
                    }
                }
            }
            Ok(raw)
        },
        EncryptionMode::Cbc => {
            let iv_bytes = match iv {
                Some(v) => v,
                None => {
                    return Err(Error::Validation(String::from_str("cbc iv is required")));
                },
            };
            if iv_bytes.len() != 16 {
                return Err(Error::Validation(String::from_str("cbc iv must be 16 bytes")));
            }
            let data = match prepare_block_input(input, padding, for_encryption)? {
                Some(d) => d,
                None => {
                    return Err(Error::CryptoFailed);
                },
            };
            let raw = if for_encryption {
                if key_len == 16 {
                    aes128_cbc_encrypt(key, iv_bytes.as_slice(), data.as_slice())
                } else {
                    aes256_cbc_encrypt(key, iv_bytes.as_slice(), data.as_slice())
                }
            } else {
                if key_len == 16 {
                    aes128_cbc_decrypt(key, iv_bytes.as_slice(), data.as_slice())
                } else {
                    aes256_cbc_decrypt(key, iv_bytes.as_slice(), data.as_slice())
                }
            };
            if !for_encryption {
                proof {
                    assert(cbc_inverse(key@, iv_bytes@, input@) == raw@);
                }
                if padding == AesEncryptionPadding::Pkcs7Padding {
                    return pkcs7_unpad_vec(raw.as_slice());
                }
            } else {
                proof {
                    assert(cbc_inverse(key@, iv_bytes@, raw@) == data@);
                    if padding == AesEncryptionPadding::Pkcs7Padding {
                        crate::padding::lemma_pkcs7_round_trip(input@);
                    }
                }
            }
            Ok(raw)
        },
        EncryptionMode::Gcm => {
            let nonce = match iv {
                Some(v) => v,
                None => {
                    return Err(Error::Validation(String::from_str("gcm nonce is required")));
                },
            };
            if nonce.len() != 12 {
                return Err(Error::Validation(String::from_str("gcm nonce must be 12 bytes")));
            }
            if padding != AesEncryptionPadding::NoPadding {
                return Err(Error::Validation(String::from_str("gcm takes no padding")));
            }
            let aad_bytes = match aad {
                Some(v) => v,
                None => Vec::new(),
            };
            if aad_bytes.len() as u64 >= 0x1000000000u64 {
                return Err(Error::Validation(String::from_str("gcm associated data too long")));
            }
            if for_encryption {
                if input.len() as u64 >= 0x1000000000u64 {
                    return Err(Error::Validation(String::from_str("gcm input too long")));
                }
                let ct = if key_len == 16 {
                    aes128_gcm_seal(key, nonce.as_slice(), aad_bytes.as_slice(), input)
                } else {
                    aes256_gcm_seal(key, nonce.as_slice(), aad_bytes.as_slice(), input)
                };
                proof {
                    assert(gcm_opened(key@, nonce@, aad_bytes@, ct@) == Some(input@));
                }
                Ok(ct)
            } else {
                let opened = if key_len == 16 {
                    aes128_gcm_open(key, nonce.as_slice(), aad_bytes.as_slice(), input)
                } else {
                    aes256_gcm_open(key, nonce.as_slice(), aad_bytes.as_slice(), input)
                };
                match opened {
                    Some(p) => {
                        proof {
                            assert(gcm_opened(key@, nonce@, aad_bytes@, input@) == Some(p@));
                        }
                        Ok(p)
                    },
                    None => Err(Error::CryptoFailed),
                }
            }
        },
    }
}

/// A symmetric-encryption request: payload, key and optional IV and
/// associated data as text, the mode, padding and direction to run.
pub struct AesEncryptoinDto {
    pub input: String,
    pub input_encoding: TextEncoding,
    pub key: String,
    pub key_encoding: TextEncoding,
    pub output_encoding: TextEncoding,
    pub mode: EncryptionMode,
    pub padding: AesEncryptionPadding,
    pub iv: Option<String>,
    pub iv_encoding: Option<TextEncoding>,
    pub aad: Option<String>,
    pub aad_encoding: Option<TextEncoding>,
    pub for_encryption: bool,
}

impl AesEncryptoinDto {
    /// The payload bytes of the request.
    pub fn input_bytes(&self) -> (r: Result<Vec<u8>, Error>)
        ensures
            r matches Ok(v) ==> spec_decode(self.input_encoding, str_bytes(self.input@)) == Some(
                v@,
            ),
            r is Ok <==> spec_decode(self.input_encoding, str_bytes(self.input@)) is Some,
    {
        self.input_encoding.decode(self.input.as_str())
    }

    /// The key bytes of the request.
    pub fn key_bytes(&self) -> (r: Result<Vec<u8>, Error>)
        ensures
            r matches Ok(v) ==> spec_decode(self.key_encoding, str_bytes(self.key@)) == Some(v@),
            r is Ok <==> spec_decode(self.key_encoding, str_bytes(self.key@)) is Some,
    {
        self.key_encoding.decode(self.key.as_str())
    }
}

impl EncryptionDto for AesEncryptoinDto {
    fn get_input(&self) -> Result<Vec<u8>, Error> {
        self.input_bytes()
    }

    fn get_key(&self) -> Result<Vec<u8>, Error> {
        self.key_bytes()
    }

    fn get_output_encoding(&self) -> TextEncoding {
        self.output_encoding
    }
}

/// An optional text field of a symmetric request: `None` stands for a
/// malformed field (a value without an encoding, or text that does
/// not decode under the declared encoding), `Some(None)` for an
/// absent one.
pub open spec fn spec_aes_opt_field(val: Option<String>, enc: Option<TextEncoding>) -> Option<
    Option<Seq<u8>>,
> {
    match (val, enc) {
        (Option::<String>::None, _) => Some(None),
        (Some(s), Some(e)) => match spec_decode(e, str_bytes(s@)) {
            Some(b) => Some(Some(b)),
            None => None,
        },
        (Some(s), Option::<TextEncoding>::None) => None,
    }
}

/// Decode an optional text field of a symmetric request: a value
/// without an encoding, or text that does not decode, is a
/// request-validation error.
fn decode_aes_opt_field(val: &Option<String>, enc: &Option<TextEncoding>) -> (r: Result<
    Option<Vec<u8>>,
    Error,
>)
    ensures
        r matches Ok(v) ==> spec_aes_opt_field(*val, *enc) == Some(opt_view(v)),
        r is Ok <==> spec_aes_opt_field(*val, *enc) is Some,
        r matches Err(e) ==> e is Validation,
{
    match (val, enc) {
        (Some(s), Some(e)) => match e.decode(s.as_str()) {
            Ok(v) => Ok(Some(v)),
            Err(_) => Err(
                Error::Validation(String::from_str("field does not decode under its encoding")),
            ),
        },
        (Some(s), None) => Err(Error::Validation(String::from_str("field encoding is required"))),
        (None, _) => Ok(None),
    }
}

/// Run one symmetric request given as text: decode its fields, run
/// the cipher, and render the answer in the requested encoding.
pub fn crypto_aes(data: &AesEncryptoinDto) -> (r: Result<String, Error>)
    ensures
        r matches Ok(s) ==> (spec_decode(data.key_encoding, str_bytes(data.key@)) matches Some(key)
            && spec_decode(data.input_encoding, str_bytes(data.input@)) matches Some(input)
            && spec_aes_opt_field(data.iv, data.iv_encoding) matches Some(iv)
            && spec_aes_opt_field(data.aad, data.aad_encoding) matches Some(aad)
            && spec_aes_output(
            data.mode,
            data.padding,
            key,
            iv,
            aad,
            input,
            data.for_encryption,
        ) matches Some(out) && s@ == spec_encode(data.output_encoding, out)),
        (spec_decode(data.key_encoding, str_bytes(data.key@)) matches Some(key) && spec_decode(
            data.input_encoding,
            str_bytes(data.input@),
        ) matches Some(input) && spec_aes_opt_field(data.iv, data.iv_encoding) matches Some(iv)
            && spec_aes_opt_field(data.aad, data.aad_encoding) matches Some(aad)
            && spec_aes_output(data.mode, data.padding, key, iv, aad, input, data.for_encryption)
            matches Some(out) && aes_args_ok(
            data.mode,
            data.padding,
            key,
            iv,
            aad,
            input,
            data.for_encryption,
        ) && spec_encode_ok(data.output_encoding, out)) ==> r is Ok,
{
    let iv = decode_aes_opt_field(&data.iv, &data.iv_encoding)?;
    let aad = decode_aes_opt_field(&data.aad, &data.aad_encoding)?;
    let key_bytes = data.key_bytes()?;
    let input = data.input_bytes()?;
    let output = encrypt_or_decrypt_aes(
        data.mode,
        input.as_slice(),
        key_bytes.as_slice(),
        iv,
        aad,
        data.padding,
        data.for_encryption,
    )?;
    data.output_encoding.encode(output.as_slice())
}

/// Draw a fresh initialization vector and render it in the requested
/// encoding. The drawn bytes are ASCII, so rendering never fails.
pub fn generate_iv(size: usize, encoding: TextEncoding) -> (r: Result<String, Error>)
    ensures
        r matches Ok(s) ==> exists|b: Seq<u8>|
            b.len() == size && #[trigger] spec_encode_ok(encoding, b) && s@ == spec_encode(
                encoding,
                b,
            ),
        r is Ok,
{
    let iv = random_bytes(size)?;
    encoding.encode(iv.as_slice())
}

/// Draw a fresh AES key of `key_size` bits and render it in the
/// requested encoding. The drawn bytes are ASCII, so rendering never
/// fails.
pub fn generate_aes(key_size: usize, encoding: TextEncoding) -> (r: Result<String, Error>)
    ensures
        r matches Ok(s) ==> exists|b: Seq<u8>|
            b.len() == key_size / 8 && #[trigger] spec_encode_ok(encoding, b) && s@ == spec_encode(
                encoding,
                b,
            ),
        r is Ok,
{
    let key = random_bytes(key_size / 8)?;
    encoding.encode(key.as_slice())
}

/// Pad the input of a block-mode request, or hand it through whole: the
/// `Ok(None)` outcome reports a ciphertext off the block boundary on a
/// PKCS#7 decryption, which the caller turns into a closed failure.
fn prepare_block_input(input: &[u8], padding: AesEncryptionPadding, for_encryption: bool) -> (r:
    Result<Option<Vec<u8>>, Error>)
    ensures
        padding == AesEncryptionPadding::NoPadding ==> match r {
            Ok(d) => d matches Some(v) && v@ == input@ && input@.len() % 16 == 0,
            Err(e) => input@.len() % 16 != 0 && e is Validation,
        },
        padding == AesEncryptionPadding::Pkcs7Padding && for_encryption ==> match r {
            Ok(d) => d matches Some(v) && v@ == pkcs7_pad(input@) && v@.len() % 16 == 0 && input@.len()
                + 16 <= usize::MAX,
            Err(e) => input@.len() + 16 > usize::MAX && e is Validation,
        },
        padding == AesEncryptionPadding::Pkcs7Padding && !for_encryption ==> match r {
            Ok(d) => match d {
                Some(v) => v@ == input@ && input@.len() % 16 == 0,
                None => input@.len() % 16 != 0,
            },
            Err(e) => false,
        },
{
    match padding {
        AesEncryptionPadding::NoPadding => {
            if input.len() % 16 != 0 {
                Err(Error::Validation(String::from_str("input must fill whole blocks")))
            } else {
                Ok(Some(vstd::slice::slice_to_vec(input)))
            }
        },
        AesEncryptionPadding::Pkcs7Padding => {
            if for_encryption {
                if input.len() > usize::MAX - 16 {
                    Err(Error::Validation(String::from_str("input too long")))
                } else {
                    Ok(Some(pkcs7_pad_vec(input)))
                }
            } else {
                if input.len() % 16 != 0 {
                    Ok(None)
                } else {
                    Ok(Some(vstd::slice::slice_to_vec(input)))
                }
            }
        },
    }
}

} // verus!
