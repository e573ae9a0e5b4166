use cryptobox::ecies::EciesDto;
use cryptobox::enums::{Digest, EccCurveName, EciesEncryptionAlgorithm, EncryptionMode, Kdf,
    KeyFormat, Pkcs, RsaKeySize, TextEncoding};
use cryptobox::errors::Error;
use cryptobox::jwt::{JwkeyAlgorithm, JwkeyType, JwkeyUsage};
use cryptobox::utils::{digests, ecies_enc_alg, edwards, elliptic_curve, jwkey_algorithm,
    jwkey_operation, jwkey_type, jwkey_usage, kdfs, rsa_encryption_padding, rsa_key_size};

#[test]
fn selector_listings_cover_the_supported_sets() {
    assert_eq!(elliptic_curve().len(), 5);
    assert_eq!(elliptic_curve()[0], EccCurveName::NistP256);
    assert_eq!(edwards().len(), 1);
    assert_eq!(kdfs(), vec![Kdf::HKdf, Kdf::Concatenation, Kdf::PbKdf2, Kdf::Scrypt]);
    assert_eq!(digests().len(), 7);
    assert_eq!(ecies_enc_alg(), vec![EciesEncryptionAlgorithm::AesGcm]);
    assert_eq!(rsa_key_size().len(), 3);
    assert_eq!(rsa_encryption_padding().len(), 2);
    assert_eq!(jwkey_type().len(), 5);
    assert_eq!(jwkey_operation().len(), 8);
}

#[test]
fn jwk_listings_follow_the_key_type() {
    assert_eq!(jwkey_algorithm(JwkeyType::Ed25519), vec![JwkeyAlgorithm::EdDSA]);
    assert_eq!(jwkey_algorithm(JwkeyType::EcDSA).len(), 4);
    assert_eq!(jwkey_algorithm(JwkeyType::Symmetric).len(), 16);
    assert_eq!(jwkey_usage(JwkeyType::X25519), vec![JwkeyUsage::Encryption]);
    assert_eq!(
        jwkey_usage(JwkeyType::RSA),
        vec![JwkeyUsage::Encryption, JwkeyUsage::Signature]
    );
}

#[test]
fn default_algorithms_match_their_key_types() {
    assert_eq!(JwkeyType::RSA.default_algorithm(), JwkeyAlgorithm::RS256);
    assert_eq!(JwkeyType::EcDSA.default_algorithm(), JwkeyAlgorithm::ES256);
    assert_eq!(JwkeyType::Ed25519.default_algorithm(), JwkeyAlgorithm::EdDSA);
    assert_eq!(JwkeyType::X25519.default_algorithm(), JwkeyAlgorithm::EcdhEs);
    assert_eq!(JwkeyType::Symmetric.default_algorithm(), JwkeyAlgorithm::A256GCM);
}

#[test]
fn selector_conversions_hold() {
    assert_eq!(EciesEncryptionAlgorithm::AesGcm.as_encryption_mode(), EncryptionMode::Gcm);
    assert_eq!(RsaKeySize::Rsa3072.bits(), 3072);
    assert_eq!(Digest::Sha3_384.output_size(), 48);
    assert_eq!(EccCurveName::NistP521.field_size(), 66);
    assert!(Kdf::Scrypt.requires_salt());
    assert!(!Kdf::HKdf.requires_salt());
}

fn salted_request(salt: Option<String>, salt_encoding: Option<TextEncoding>) -> EciesDto {
    EciesDto {
        input: String::new(),
        input_encoding: TextEncoding::Utf8,
        key: String::new(),
        key_encoding: TextEncoding::Utf8,
        output_encoding: TextEncoding::Utf8,
        curve_name: EccCurveName::NistP256,
        pkcs: Pkcs::Pkcs8,
        format: KeyFormat::Der,
        kdf: Kdf::HKdf,
        kdf_digest: Digest::Sha256,
        salt,
        salt_encoding,
        info: None,
        info_encoding: None,
        encryption_alg: EciesEncryptionAlgorithm::AesGcm,
        for_encryption: true,
    }
}

#[test]
fn ecies_request_salt_demands_an_encoding() {
    let absent = salted_request(None, None);
    assert!(absent.get_salt().unwrap().is_none());
    let unannotated = salted_request(Some("abcd".to_string()), None);
    assert!(matches!(unannotated.get_salt(), Err(Error::Unsupported(_))));
    let annotated = salted_request(Some("abcd".to_string()), Some(TextEncoding::Utf8));
    assert_eq!(annotated.get_salt().unwrap().unwrap(), b"abcd".to_vec());
    assert!(absent.get_info().unwrap().is_none());
}

#[test]
fn error_messages_name_their_cause() {
    let e = Error::Unsupported("keysize 10".to_string());
    assert_eq!(e.message(), "keysize 10");
    assert!(e.is_rejection());
    assert!(!Error::CryptoFailed.is_rejection());
    assert_eq!(Error::CryptoFailed.message(), "");
}
