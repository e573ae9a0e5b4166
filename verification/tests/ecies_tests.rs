use cryptobox::aes::encrypt_or_decrypt_aes;
use cryptobox::common::random_bytes;
use cryptobox::ecc::{ec_generate, ec_shared_secret, export_ecc_private_key,
    export_ecc_public_key};
use cryptobox::ecies::{ecies, ecies_decrypt, ecies_encrypt, EciesDto};
use cryptobox::edwards::{curve_25519_ecies_decrypt, curve_25519_ecies_encrypt,
    generate_curve_25519_key};
use cryptobox::enums::{AesEncryptionPadding, Digest, EccCurveName, EciesEncryptionAlgorithm,
    EncryptionMode, Kdf, KeyFormat, Pkcs, TextEncoding};
use cryptobox::errors::Error;
use cryptobox::kdf::kdf_inner_digest;

const CURVES: [EccCurveName; 5] = [
    EccCurveName::NistP256,
    EccCurveName::NistP384,
    EccCurveName::NistP521,
    EccCurveName::Secp256k1,
    EccCurveName::SM2,
];

struct Pair {
    private_der: Vec<u8>,
    public_der: Vec<u8>,
}

fn fresh_pair(curve: EccCurveName) -> Pair {
    let (scalar, point) = ec_generate(curve);
    Pair {
        private_der: export_ecc_private_key(curve, &scalar, Pkcs::Pkcs8, KeyFormat::Der).unwrap(),
        public_der: export_ecc_public_key(curve, &point, KeyFormat::Der).unwrap(),
    }
}

fn round_trip(
    curve: EccCurveName,
    kdf: Kdf,
    digest: Digest,
    salt: Option<Vec<u8>>,
    info: Option<Vec<u8>>,
    plaintext: &[u8],
) {
    let pair = fresh_pair(curve);
    let envelope = ecies_encrypt(
        curve,
        &pair.public_der,
        KeyFormat::Der,
        kdf,
        digest,
        salt.clone(),
        info.clone(),
        plaintext,
    )
    .unwrap();
    let opened = ecies_decrypt(
        curve,
        &pair.private_der,
        Pkcs::Pkcs8,
        KeyFormat::Der,
        kdf,
        digest,
        salt,
        info,
        &envelope,
    )
    .unwrap();
    assert_eq!(opened, plaintext.to_vec());
}

#[test]
fn ecies_round_trips_on_every_curve() {
    for curve in CURVES {
        round_trip(curve, Kdf::HKdf, Digest::Sha256, None, None, b"plaintext");
        // the boundary case: an empty payload
        round_trip(curve, Kdf::HKdf, Digest::Sha256, None, None, b"");
    }
}

#[test]
fn ecies_round_trips_under_every_kdf() {
    let salt = Some(random_bytes(12).unwrap());
    let info = Some(b"info".to_vec());
    round_trip(EccCurveName::NistP256, Kdf::HKdf, Digest::Sha256, salt.clone(), info.clone(), b"plaintext");
    round_trip(EccCurveName::NistP256, Kdf::Concatenation, Digest::Sha256, salt, info, b"plaintext");
}

#[test]
fn ecies_round_trips_under_pbkdf2() {
    let salt = Some(random_bytes(12).unwrap());
    round_trip(EccCurveName::NistP256, Kdf::PbKdf2, Digest::Sha256, salt, None, b"plaintext");
}

#[test]
fn ecies_round_trips_under_every_digest() {
    for digest in [
        Digest::Sha1,
        Digest::Sha256,
        Digest::Sha384,
        Digest::Sha512,
        Digest::Sha3_256,
        Digest::Sha3_384,
        Digest::Sha3_512,
    ] {
        round_trip(EccCurveName::Secp256k1, Kdf::HKdf, digest, None, None, b"plaintext");
    }
}

#[test]
fn ecies_envelope_is_length_prefixed_and_split_at_thirty_two() {
    // build an envelope by hand from the documented parts: a length
    // prefix, the ephemeral compressed point, and a GCM sealing under
    // the 44-byte derivation split as key[0:32] and nonce[32:44].
    let curve = EccCurveName::NistP256;
    let pair = fresh_pair(curve);
    let (recipient_scalar, recipient_point) = {
        let (s, p) = ec_generate(curve);
        (s, p)
    };
    let private_der =
        export_ecc_private_key(curve, &recipient_scalar, Pkcs::Pkcs8, KeyFormat::Der).unwrap();
    let _ = pair;
    let (eph_scalar, eph_point) = ec_generate(curve);
    let shared = ec_shared_secret(curve, &eph_scalar, &recipient_point).unwrap();
    let okm = kdf_inner_digest(Kdf::HKdf, Digest::Sha256, &shared, None, None, 44).unwrap();
    let sealed = encrypt_or_decrypt_aes(
        EncryptionMode::Gcm,
        b"plaintext",
        &okm[0..32],
        Some(okm[32..44].to_vec()),
        None,
        AesEncryptionPadding::NoPadding,
        true,
    )
    .unwrap();
    let mut envelope = vec![33u8];
    envelope.extend_from_slice(&eph_point);
    envelope.extend_from_slice(&sealed);
    let opened = ecies_decrypt(
        curve,
        &private_der,
        Pkcs::Pkcs8,
        KeyFormat::Der,
        Kdf::HKdf,
        Digest::Sha256,
        None,
        None,
        &envelope,
    )
    .unwrap();
    assert_eq!(opened, b"plaintext".to_vec());
}

#[test]
fn ecies_fails_closed_on_tamper_and_wrong_key() {
    let curve = EccCurveName::NistP256;
    let pair = fresh_pair(curve);
    let envelope = ecies_encrypt(
        curve,
        &pair.public_der,
        KeyFormat::Der,
        Kdf::HKdf,
        Digest::Sha256,
        None,
        None,
        b"plaintext",
    )
    .unwrap();
    // flip each byte of the sealed part: decryption must fail closed
    for i in 34..envelope.len() {
        let mut corrupted = envelope.clone();
        corrupted[i] ^= 0x01;
        assert!(matches!(
            ecies_decrypt(
                curve,
                &pair.private_der,
                Pkcs::Pkcs8,
                KeyFormat::Der,
                Kdf::HKdf,
                Digest::Sha256,
                None,
                None,
                &corrupted,
            ),
            Err(Error::CryptoFailed)
        ));
    }
    // a different private key must fail the same way
    let other = fresh_pair(curve);
    assert!(matches!(
        ecies_decrypt(
            curve,
            &other.private_der,
            Pkcs::Pkcs8,
            KeyFormat::Der,
            Kdf::HKdf,
            Digest::Sha256,
            None,
            None,
            &envelope,
        ),
        Err(Error::CryptoFailed)
    ));
    // a truncated envelope is malformed
    assert!(ecies_decrypt(
        curve,
        &pair.private_der,
        Pkcs::Pkcs8,
        KeyFormat::Der,
        Kdf::HKdf,
        Digest::Sha256,
        None,
        None,
        &envelope[..20],
    )
    .is_err());
}

#[test]
fn ecies_request_round_trip() {
    let curve = EccCurveName::NistP521;
    let pair = fresh_pair(curve);
    let encoding = TextEncoding::Base64;
    let salt = encoding.encode(&random_bytes(12).unwrap()).unwrap();
    let ciphertext = ecies(&EciesDto {
        input: "plaintext".to_string(),
        input_encoding: TextEncoding::Utf8,
        key: encoding.encode(&pair.public_der).unwrap(),
        key_encoding: encoding,
        output_encoding: encoding,
        curve_name: curve,
        pkcs: Pkcs::Pkcs8,
        format: KeyFormat::Der,
        kdf: Kdf::HKdf,
        kdf_digest: Digest::Sha384,
        salt: Some(salt.clone()),
        salt_encoding: Some(TextEncoding::Base64),
        info: Some("info".to_string()),
        info_encoding: Some(TextEncoding::Utf8),
        encryption_alg: EciesEncryptionAlgorithm::AesGcm,
        for_encryption: true,
    })
    .unwrap();
    let recovered = ecies(&EciesDto {
        input: ciphertext,
        input_encoding: encoding,
        key: encoding.encode(&pair.private_der).unwrap(),
        key_encoding: encoding,
        output_encoding: TextEncoding::Utf8,
        curve_name: curve,
        pkcs: Pkcs::Pkcs8,
        format: KeyFormat::Der,
        kdf: Kdf::HKdf,
        kdf_digest: Digest::Sha384,
        salt: Some(salt),
        salt_encoding: Some(TextEncoding::Base64),
        info: Some("info".to_string()),
        info_encoding: Some(TextEncoding::Utf8),
        encryption_alg: EciesEncryptionAlgorithm::AesGcm,
        for_encryption: false,
    })
    .unwrap();
    assert_eq!(recovered, "plaintext");
}

#[test]
fn ecies_demands_a_salt_for_password_kdfs() {
    let pair = fresh_pair(EccCurveName::NistP256);
    assert!(matches!(
        ecies_encrypt(
            EccCurveName::NistP256,
            &pair.public_der,
            KeyFormat::Der,
            Kdf::PbKdf2,
            Digest::Sha256,
            None,
            None,
            b"plaintext",
        ),
        Err(Error::Validation(_))
    ));
}

#[test]
fn curve_25519_ecies_round_trip_pem() {
    let format = KeyFormat::Pem;
    let (private_doc, public_doc) = generate_curve_25519_key(format).unwrap();
    let envelope = curve_25519_ecies_encrypt(b"", &public_doc, format).unwrap();
    assert_eq!(envelope[0], 32);
    let opened = curve_25519_ecies_decrypt(&envelope, &private_doc, format).unwrap();
    assert_eq!(opened, Vec::<u8>::new());
}

#[test]
fn curve_25519_ecies_round_trip() {
    let format = KeyFormat::Der;
    let (private_doc, public_doc) = generate_curve_25519_key(format).unwrap();
    let envelope = curve_25519_ecies_encrypt(b"plaintext", &public_doc, format).unwrap();
    assert_eq!(envelope[0], 32);
    let opened = curve_25519_ecies_decrypt(&envelope, &private_doc, format).unwrap();
    assert_eq!(opened, b"plaintext".to_vec());
}

#[test]
fn curve_25519_ecies_fails_closed_on_tamper() {
    let (private_doc, public_doc) = generate_curve_25519_key(KeyFormat::Der).unwrap();
    let envelope = curve_25519_ecies_encrypt(b"plaintext", &public_doc, KeyFormat::Der).unwrap();
    let mut corrupted = envelope.clone();
    let last = corrupted.len() - 1;
    corrupted[last] ^= 0x80;
    assert!(matches!(
        curve_25519_ecies_decrypt(&corrupted, &private_doc, KeyFormat::Der),
        Err(Error::CryptoFailed)
    ));
}
