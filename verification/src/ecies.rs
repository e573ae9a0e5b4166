//! ECIES hybrid encryption over the Weierstrass curves.
//!
//! Encryption draws an ephemeral key pair, agrees on a Diffie-Hellman
//! shared secret with the recipient's public key, expands it through
//! the KDF layer into an AES-256 key and a GCM nonce, seals the payload
//! and emits the envelope `length(1 byte) || ephemeral public point ||
//! ciphertext`. Decryption splits the envelope, reruns the agreement
//! from the other side and opens the ciphertext; both sides must use
//! bit-identical KDF parameters, which is the central correctness
//! invariant of the protocol.

use vstd::prelude::*;

use crate::aes::{aes_gcm_seal, encrypt_or_decrypt_aes, gcm_opened};
use crate::backend::{ec_ecdh, ec_point_of, ec_point_ok, ec_scalar_ok};
use crate::ecc::{curve_id, ec_generate, ec_shared_secret, import_ecc_private_key,
    import_ecc_public_key, spec_ec_priv_import, spec_ec_pub_import};
use crate::enums::{AesEncryptionPadding, EccCurveName, EncryptionMode, KeyFormat, Kdf, Pkcs,
    Digest};
use crate::errors::Error;
use crate::codec::{spec_decode, spec_encode, spec_encode_ok};
use crate::crypto::{str_bytes, EncryptionDto};
use crate::enums::{EciesEncryptionAlgorithm, TextEncoding};
use crate::kdf::{kdf_args_ok, kdf_inner_digest, opt_buf_view, spec_kdf_output};

verus! {

/// The byte count of the derived material: a 32-byte AES-256 key
/// followed by a 12-byte GCM nonce.
pub const ECIES_OKM_LEN: usize = 44;

/// Whether the KDF selection can expand an ECIES shared secret: the
/// password-based functions demand a salt, the others always serve a
/// 44-byte request over a non-empty secret.
pub open spec fn ecies_kdf_ok(kdf: Kdf, salt: Option<Seq<u8>>) -> bool {
    match kdf {
        Kdf::PbKdf2 => salt is Some,
        Kdf::Scrypt => salt is Some,
        _ => true,
    }
}

/// The ciphertext ECIES produces for an ephemeral scalar `e`, a
/// recipient point, KDF parameters and a payload: the envelope's
/// sealed part.
pub open spec fn spec_ecies_sealed(
    curve: EccCurveName,
    e: Seq<u8>,
    recipient: Seq<u8>,
    kdf: Kdf,
    digest: Digest,
    salt: Option<Seq<u8>>,
    info: Option<Seq<u8>>,
    pt: Seq<u8>,
) -> Seq<u8> {
    let ss = ec_ecdh(curve_id(curve), e, recipient);
    let okm = spec_kdf_output(kdf, digest, ss, salt, info, 44);
    aes_gcm_seal(okm.take(32), okm.skip(32), Seq::empty(), pt)
}

/// Whether a byte string has the documented envelope shape for a
/// curve: the length prefix names the compressed-point size and the
/// buffer holds at least that many point bytes.
pub open spec fn spec_envelope_shaped(curve: EccCurveName, data: Seq<u8>) -> bool {
    let psize = curve.spec_field_size() + 1;
    data.len() >= 1 + psize && data[0] == psize as u8
}

/// The plaintext an ECIES envelope opens to under a private scalar and
/// KDF parameters, or `None` where the envelope is malformed, the
/// embedded point invalid, or the sealed part the sealing of nothing.
pub open spec fn spec_ecies_plaintext(
    curve: EccCurveName,
    d: Seq<u8>,
    kdf: Kdf,
    digest: Digest,
    salt: Option<Seq<u8>>,
    info: Option<Seq<u8>>,
    data: Seq<u8>,
) -> Option<Seq<u8>> {
    let psize = curve.spec_field_size() + 1;
    if data.len() < 1 + psize || data[0] != psize as u8 {
        None
    } else {
        let ep = data.subrange(1, 1 + psize as int);
        if !ec_point_ok(curve_id(curve), ep) {
            None
        } else {
            let ss = ec_ecdh(curve_id(curve), d, ep);
            let okm = spec_kdf_output(kdf, digest, ss, salt, info, 44);
            gcm_opened(okm.take(32), okm.skip(32), Seq::empty(), data.skip(1 + psize as int))
        }
    }
}

/// Encrypt a payload to a recipient public key: the ECIES encrypt
/// path. The result is the documented envelope for some fresh
/// ephemeral scalar, and opening it under any private scalar whose
/// public point is the recipient key gives the payload back: the
/// round trip holds for every supported curve and KDF selection.
pub fn ecies_encrypt(
    curve: EccCurveName,
    recipient_key: &[u8],
    format: KeyFormat,
    kdf: Kdf,
    digest: Digest,
    salt: Option<Vec<u8>>,
    info: Option<Vec<u8>>,
    plaintext: &[u8],
) -> (r: Result<Vec<u8>, Error>)
    ensures
        r matches Ok(v) ==> (spec_ec_pub_import(curve, format, recipient_key@) matches Some(rp)
            && exists|e: Seq<u8>|
            {
                &&& #[trigger] ec_scalar_ok(curve_id(curve), e)
                &&& v@ == seq![(curve.spec_field_size() + 1) as u8] + ec_point_of(
                    curve_id(curve),
                    e,
                ) + spec_ecies_sealed(
                    curve,
                    e,
                    rp,
                    kdf,
                    digest,
                    opt_buf_view(salt),
                    opt_buf_view(info),
                    plaintext@,
                )
                &&& forall|s2: Seq<u8>|
                    ec_scalar_ok(curve_id(curve), s2) && rp == ec_point_of(curve_id(curve), s2)
                        ==> ec_ecdh(curve_id(curve), e, rp) == ec_ecdh(
                        curve_id(curve),
                        s2,
                        ec_point_of(curve_id(curve), e),
                    )
            }),
        spec_ec_pub_import(curve, format, recipient_key@) is None ==> r is Err,
        r is Err ==> spec_ec_pub_import(curve, format, recipient_key@) is None || !ecies_kdf_ok(
            kdf,
            opt_buf_view(salt),
        ) || plaintext@.len() >= 0x1000000000,
        r matches Ok(v) ==> (forall|d: Seq<u8>|
            ec_scalar_ok(curve_id(curve), d) && spec_ec_pub_import(curve, format, recipient_key@)
                == Some(ec_point_of(curve_id(curve), d)) ==> spec_ecies_plaintext(
                curve,
                d,
                kdf,
                digest,
                opt_buf_view(salt),
                opt_buf_view(info),
                v@,
            ) == Some(plaintext@)),
{
    let recipient = import_ecc_public_key(curve, recipient_key, format)?;
    if plaintext.len() as u64 >= 0x1000000000u64 {
        return Err(Error::Validation(String::from_str("payload too long")));
    }
    let (eph_scalar, eph_point) = ec_generate(curve);
    let ss = match ec_shared_secret(curve, eph_scalar.as_slice(), recipient.as_slice()) {
        Some(v) => v,
        None => {
            return Err(Error::CryptoFailed);
        },
    };
    let okm = match kdf_inner_digest(kdf, digest, ss.as_slice(), salt, info, ECIES_OKM_LEN) {
        Ok(v) => v,
        Err(e) => {
            proof {
                assert(kdf_args_ok(kdf, digest, ss@, opt_buf_view(salt), 44) == ecies_kdf_ok(
                    kdf,
                    opt_buf_view(salt),
                ));
            }
            return Err(e);
        },
    };
    let key = vstd::slice::slice_subrange(okm.as_slice(), 0, 32);
    let nonce = vstd::slice::slice_subrange(okm.as_slice(), 32, 44);
    let sealed = encrypt_or_decrypt_aes(
        EncryptionMode::Gcm,
        plaintext,
        key,
        Some(vstd::slice::slice_to_vec(nonce)),
        None,
        AesEncryptionPadding::NoPadding,
        true,
    )?;
    let mut out: Vec<u8> = Vec::new();
    let psize = curve.field_size() + 1;
    out.push(psize as u8);
    out.extend_from_slice(eph_point.as_slice());
    out.extend_from_slice(sealed.as_slice());
    proof {
        assert(out@ =~= seq![(curve.spec_field_size() + 1) as u8] + eph_point@ + sealed@);
        assert(okm@.take(32) =~= key@);
        assert(okm@.skip(32) =~= nonce@);
        assert(sealed@ == spec_ecies_sealed(
            curve,
            eph_scalar@,
            recipient@,
            kdf,
            digest,
            opt_buf_view(salt),
            opt_buf_view(info),
            plaintext@,
        ));
        let cid = curve_id(curve);
        let psz = curve.spec_field_size() + 1;
        assert forall|d: Seq<u8>|
            ec_scalar_ok(cid, d) && spec_ec_pub_import(curve, format, recipient_key@) == Some(
                ec_point_of(cid, d),
            ) implies spec_ecies_plaintext(
            curve,
            d,
            kdf,
            digest,
            opt_buf_view(salt),
            opt_buf_view(info),
            out@,
        ) == Some(plaintext@) by {
            assert(recipient@ == ec_point_of(cid, d));
            assert(out@.len() == 1 + psz + sealed@.len());
            assert(out@[0] == psz as u8);
            assert(out@.subrange(1, 1 + psz as int) =~= eph_point@);
            assert(out@.skip(1 + psz as int) =~= sealed@);
            assert(ec_ecdh(cid, d, eph_point@) == ec_ecdh(cid, eph_scalar@, recipient@));
            assert(gcm_opened(okm@.take(32), okm@.skip(32), Seq::empty(), sealed@) == Some(
                plaintext@,
            ));
        };
    }
    Ok(out)
}

/// Decrypt an ECIES envelope with the recipient's private key: the
/// ECIES decrypt path. Success is owed exactly on envelopes whose
/// sealed part is a sealing under the recomputed key material. A
/// malformed envelope is a format error; once the envelope is
/// well-shaped and its point valid, a wrong key, a tampered
/// ciphertext and mismatched KDF context all end in the same closed
/// failure, so the error never says which it was.
pub fn ecies_decrypt(
    curve: EccCurveName,
    own_key: &[u8],
    pkcs: Pkcs,
    format: KeyFormat,
    kdf: Kdf,
    digest: Digest,
    salt: Option<Vec<u8>>,
    info: Option<Vec<u8>>,
    input: &[u8],
) -> (r: Result<Vec<u8>, Error>)
    ensures
        r matches Ok(p) ==> (spec_ec_priv_import(curve, pkcs, format, own_key@) matches Some(d)
            && spec_ecies_plaintext(
            curve,
            d,
            kdf,
            digest,
            opt_buf_view(salt),
            opt_buf_view(info),
            input@,
        ) == Some(p@)),
        (pkcs == Pkcs::Pkcs8 || pkcs == Pkcs::Sec1) && ecies_kdf_ok(kdf, opt_buf_view(salt)) ==> ((
        spec_ec_priv_import(curve, pkcs, format, own_key@) matches Some(d) && spec_ecies_plaintext(
            curve,
            d,
            kdf,
            digest,
            opt_buf_view(salt),
            opt_buf_view(info),
            input@,
        ) is Some) ==> r is Ok),
        (pkcs == Pkcs::Pkcs8 || pkcs == Pkcs::Sec1) && spec_ec_priv_import(
            curve,
            pkcs,
            format,
            own_key@,
        ) is Some && !spec_envelope_shaped(curve, input@) ==> (r matches Err(e) && e is Format),
        (pkcs == Pkcs::Pkcs8 || pkcs == Pkcs::Sec1) && spec_ec_priv_import(
            curve,
            pkcs,
            format,
            own_key@,
        ) is Some && spec_envelope_shaped(curve, input@) && !ec_point_ok(
            curve_id(curve),
            input@.subrange(1, 1 + curve.spec_field_size() + 1),
        ) ==> (r matches Err(e) && e is CryptoFailed),
        (pkcs == Pkcs::Pkcs8 || pkcs == Pkcs::Sec1) && spec_ec_priv_import(
            curve,
            pkcs,
            format,
            own_key@,
        ) is Some && spec_envelope_shaped(curve, input@) && ec_point_ok(
            curve_id(curve),
            input@.subrange(1, 1 + curve.spec_field_size() + 1),
        ) && !ecies_kdf_ok(kdf, opt_buf_view(salt)) ==> (r matches Err(e) && e is Validation),
        (spec_ec_priv_import(curve, pkcs, format, own_key@) matches Some(d) && (pkcs == Pkcs::Pkcs8
            || pkcs == Pkcs::Sec1) && spec_envelope_shaped(curve, input@) && ec_point_ok(
            curve_id(curve),
            input@.subrange(1, 1 + curve.spec_field_size() + 1),
        ) && ecies_kdf_ok(kdf, opt_buf_view(salt)) && spec_ecies_plaintext(
            curve,
            d,
            kdf,
            digest,
            opt_buf_view(salt),
            opt_buf_view(info),
            input@,
        ) is None) ==> (r matches Err(e) && e is CryptoFailed),
{
    let d = import_ecc_private_key(curve, own_key, pkcs, format)?;
    let psize = curve.field_size() + 1;
    if input.len() < 1 + psize || input[0] as usize != psize {
        return Err(Error::Format(String::from_str("malformed envelope")));
    }
    let ep = vstd::slice::slice_subrange(input, 1, 1 + psize);
    let ct = vstd::slice::slice_subrange(input, 1 + psize, input.len());
    proof {
        assert(input@.subrange(1, 1 + curve.spec_field_size() + 1) =~= ep@);
    }
    let ss = match ec_shared_secret(curve, d.as_slice(), ep) {
        Some(v) => v,
        None => {
            return Err(Error::CryptoFailed);
        },
    };
    proof {
        assert(kdf_args_ok(kdf, digest, ss@, opt_buf_view(salt), 44) == ecies_kdf_ok(
            kdf,
            opt_buf_view(salt),
        ));
    }
    let okm = kdf_inner_digest(kdf, digest, ss.as_slice(), salt, info, ECIES_OKM_LEN)?;
    let key = vstd::slice::slice_subrange(okm.as_slice(), 0, 32);
    let nonce = vstd::slice::slice_subrange(okm.as_slice(), 32, 44);
    let opened = encrypt_or_decrypt_aes(
        EncryptionMode::Gcm,
        ct,
        key,
        Some(vstd::slice::slice_to_vec(nonce)),
        None,
        AesEncryptionPadding::NoPadding,
        false,
    );
    match opened {
        Ok(p) => {
            proof {
                assert(okm@.take(32) =~= key@);
                assert(okm@.skip(32) =~= nonce@);
                assert(input@.subrange(1, 1 + curve.spec_field_size() + 1) =~= ep@);
                assert(input@.skip(1 + curve.spec_field_size() + 1) =~= ct@);
            }
            Ok(p)
        },
        Err(_) => Err(Error::CryptoFailed),
    }
}

// ---------------------------------------------------------------------------
// The request boundary.
// ---------------------------------------------------------------------------

/// An ECIES request: the payload and counterpart key as text, the
/// curve, the container and serialization of the key, the KDF and
/// digest both sides must share, optional salt and info, and the
/// direction to run.
pub struct EciesDto {
    pub input: String,
    pub input_encoding: TextEncoding,
    pub key: String,
    pub key_encoding: TextEncoding,
    pub output_encoding: TextEncoding,
    pub curve_name: EccCurveName,
    pub pkcs: Pkcs,
    pub format: KeyFormat,
    pub kdf: Kdf,
    pub kdf_digest: Digest,
    pub salt: Option<String>,
    pub salt_encoding: Option<TextEncoding>,
    pub info: Option<String>,
    pub info_encoding: Option<TextEncoding>,
    pub encryption_alg: EciesEncryptionAlgorithm,
    pub for_encryption: bool,
}

/// An optional text field of an ECIES request: `None` stands for a
/// malformed field (a value without an encoding, or text that does not
/// decode), `Some(None)` for an absent one.
pub open spec fn spec_ecies_opt_field(val: Option<String>, enc: Option<TextEncoding>) -> Option<
    Option<Seq<u8>>,
> {
    match (val, enc) {
        (Option::<String>::None, _) => Some(None),
        (Some(s), Some(e)) => match spec_decode(e, str_bytes(s@)) {
            Some(b) => Some(Some(b)),
            None => None,
        },
        (Some(s), Option::<TextEncoding>::None) => None,
    }
}

impl EciesDto {
    /// The decoded salt of the request: an error where a salt is given
    /// without an encoding or does not decode.
    pub fn get_salt(&self) -> (r: Result<Option<Vec<u8>>, Error>)
        ensures
            r matches Ok(v) ==> spec_ecies_opt_field(self.salt, self.salt_encoding) == Some(
                opt_buf_view(v),
            ),
            r is Ok <==> spec_ecies_opt_field(self.salt, self.salt_encoding) is Some,
            (self.salt is Some && self.salt_encoding is None) ==> (r matches Err(e)
                && e is Unsupported),
    {
        match (&self.salt, &self.salt_encoding) {
            (Some(s), Some(e)) => match e.decode(s.as_str()) {
                Ok(v) => Ok(Some(v)),
                Err(e) => Err(e),
            },
            (Some(s), None) => Err(Error::Unsupported(String::from_str("salt encoding is required"))),
            (None, _) => Ok(None),
        }
    }

    /// The decoded info of the request: an error where an info is
    /// given without an encoding or does not decode.
    pub fn get_info(&self) -> (r: Result<Option<Vec<u8>>, Error>)
        ensures
            r matches Ok(v) ==> spec_ecies_opt_field(self.info, self.info_encoding) == Some(
                opt_buf_view(v),
            ),
            r is Ok <==> spec_ecies_opt_field(self.info, self.info_encoding) is Some,
            (self.info is Some && self.info_encoding is None) ==> (r matches Err(e)
                && e is Unsupported),
    {
        match (&self.info, &self.info_encoding) {
            (Some(s), Some(e)) => match e.decode(s.as_str()) {
                Ok(v) => Ok(Some(v)),
                Err(e) => Err(e),
            },
            (Some(s), None) => Err(Error::Unsupported(String::from_str("info encoding is required"))),
            (None, _) => Ok(None),
        }
    }

    /// The payload bytes of the request.
    pub fn input_bytes(&self) -> (r: Result<Vec<u8>, Error>)
        ensures
            r matches Ok(v) ==> spec_decode(self.input_encoding, str_bytes(self.input@)) == Some(
                v@,
            ),
            r is Ok <==> spec_decode(self.input_encoding, str_bytes(self.input@)) is Some,
    {
        self.input_encoding.decode(self.input.as_str())
    }

    /// The key bytes of the request.
    pub fn key_bytes(&self) -> (r: Result<Vec<u8>, Error>)
        ensures
            r matches Ok(v) ==> spec_decode(self.key_encoding, str_bytes(self.key@)) == Some(v@),
            r is Ok <==> spec_decode(self.key_encoding, str_bytes(self.key@)) is Some,
    {
        self.key_encoding.decode(self.key.as_str())
    }
}

impl EncryptionDto for EciesDto {
    fn get_input(&self) -> Result<Vec<u8>, Error> {
        self.input_bytes()
    }

    fn get_key(&self) -> Result<Vec<u8>, Error> {
        self.key_bytes()
    }

    fn get_output_encoding(&self) -> TextEncoding {
        self.output_encoding
    }
}

/// Run one ECIES request given as text: decode its fields, encrypt to
/// the counterpart public key or decrypt with the own private key,
/// and render the answer in the requested encoding.
pub fn ecies(data: &EciesDto) -> (r: Result<String, Error>)
    ensures
        data.for_encryption ==> (r matches Ok(s) ==> (spec_decode(
            data.key_encoding,
            str_bytes(data.key@),
        ) matches Some(kb) && spec_decode(data.input_encoding, str_bytes(data.input@)) matches Some(
            pt,
        ) && spec_ecies_opt_field(data.salt, data.salt_encoding) matches Some(salt)
            && spec_ecies_opt_field(data.info, data.info_encoding) matches Some(info)
            && spec_ec_pub_import(data.curve_name, data.format, kb) matches Some(rp)
            && exists|e: Seq<u8>|
            {
                &&& #[trigger] ec_scalar_ok(curve_id(data.curve_name), e)
                &&& s@ == spec_encode(
                    data.output_encoding,
                    seq![(data.curve_name.spec_field_size() + 1) as u8] + ec_point_of(
                        curve_id(data.curve_name),
                        e,
                    ) + spec_ecies_sealed(
                        data.curve_name,
                        e,
                        rp,
                        data.kdf,
                        data.kdf_digest,
                        salt,
                        info,
                        pt,
                    ),
                )
            })),
        !data.for_encryption ==> (r matches Ok(s) ==> (spec_decode(
            data.key_encoding,
            str_bytes(data.key@),
        ) matches Some(kb) && spec_decode(data.input_encoding, str_bytes(data.input@)) matches Some(
            envelope,
        ) && spec_ecies_opt_field(data.salt, data.salt_encoding) matches Some(salt)
            && spec_ecies_opt_field(data.info, data.info_encoding) matches Some(info)
            && spec_ec_priv_import(data.curve_name, data.pkcs, data.format, kb) matches Some(d)
            && spec_ecies_plaintext(
            data.curve_name,
            d,
            data.kdf,
            data.kdf_digest,
            salt,
            info,
            envelope,
        ) matches Some(p) && s@ == spec_encode(data.output_encoding, p))),
        data.for_encryption ==> ((spec_decode(data.key_encoding, str_bytes(data.key@)) matches Some(
            kb,
        ) && spec_decode(data.input_encoding, str_bytes(data.input@)) matches Some(pt)
            && spec_ecies_opt_field(data.salt, data.salt_encoding) matches Some(salt)
            && spec_ecies_opt_field(data.info, data.info_encoding) matches Some(info)
            && spec_ec_pub_import(data.curve_name, data.format, kb) is Some && ecies_kdf_ok(
            data.kdf,
            salt,
        ) && pt.len() < 0x1000000000 && data.output_encoding != TextEncoding::Utf8) ==> r is Ok),
        !data.for_encryption ==> ((spec_decode(data.key_encoding, str_bytes(data.key@)) matches Some(
            kb,
        ) && spec_decode(data.input_encoding, str_bytes(data.input@)) matches Some(envelope)
            && spec_ecies_opt_field(data.salt, data.salt_encoding) matches Some(salt)
            && spec_ecies_opt_field(data.info, data.info_encoding) matches Some(info)
            && spec_ec_priv_import(data.curve_name, data.pkcs, data.format, kb) matches Some(d)
            && spec_ecies_plaintext(
            data.curve_name,
            d,
            data.kdf,
            data.kdf_digest,
            salt,
            info,
            envelope,
        ) matches Some(p) && (data.pkcs == Pkcs::Pkcs8 || data.pkcs == Pkcs::Sec1) && ecies_kdf_ok(
            data.kdf,
            salt,
        ) && spec_encode_ok(data.output_encoding, p)) ==> r is Ok),
{
    let key = data.key_bytes()?;
    let input = data.input_bytes()?;
    let salt = data.get_salt()?;
    let info = data.get_info()?;
    let out = if data.for_encryption {
        ecies_encrypt(
            data.curve_name,
            key.as_slice(),
            data.format,
            data.kdf,
            data.kdf_digest,
            salt,
            info,
            input.as_slice(),
        )?
    } else {
        ecies_decrypt(
            data.curve_name,
            key.as_slice(),
            data.pkcs,
            data.format,
            data.kdf,
            data.kdf_digest,
            salt,
            info,
            input.as_slice(),
        )?
    };
    data.output_encoding.encode(out.as_slice())
}

} // verus!
