use cryptobox::common::random_bytes;
use cryptobox::enums::{Digest, Kdf, TextEncoding};
use cryptobox::errors::Error;
use cryptobox::kdf::{kdf, kdf_inner_digest, run_pbkdf2, KdfDto};

#[test]
fn pbkdf2_is_deterministic_with_the_fixed_salt() {
    let secret = random_bytes(32).unwrap();
    let first = run_pbkdf2(Digest::Sha512, &secret, b"VSPDJrx1Pj1zqVGN", 210_000, 48);
    let second = run_pbkdf2(Digest::Sha512, &secret, b"VSPDJrx1Pj1zqVGN", 210_000, 48);
    assert_eq!(first, second);
    assert_eq!(first.len(), 48);
}

#[test]
fn pbkdf2_standalone_entry_runs_its_fixed_rounds() {
    let okm = kdf_inner_digest(
        Kdf::PbKdf2,
        Digest::Sha256,
        b"secret",
        Some(b"salt".to_vec()),
        None,
        32,
    )
    .unwrap();
    assert_eq!(okm.len(), 32);
    assert_ne!(okm, vec![0u8; 32]);
}

#[test]
fn scrypt_derives_under_the_recommended_parameters() {
    let okm = kdf_inner_digest(
        Kdf::Scrypt,
        Digest::Sha256,
        b"secret",
        Some(b"salt".to_vec()),
        None,
        32,
    )
    .unwrap();
    assert_eq!(okm.len(), 32);
    assert_ne!(okm, vec![0u8; 32]);
}

#[test]
fn hkdf_matches_rfc_5869_case_one() {
    let ikm = [0x0bu8; 22];
    let salt: Vec<u8> = (0x00u8..=0x0c).collect();
    let info: Vec<u8> = (0xf0u8..=0xf9).collect();
    let okm = kdf_inner_digest(
        Kdf::HKdf,
        Digest::Sha256,
        &ikm,
        Some(salt),
        Some(info),
        42,
    )
    .unwrap();
    let expected = [
        0x3cu8, 0xb2, 0x5f, 0x25, 0xfa, 0xac, 0xd5, 0x7a, 0x90, 0x43, 0x4f, 0x64, 0xd0, 0x36,
        0x2f, 0x2a, 0x2d, 0x2d, 0x0a, 0x90, 0xcf, 0x1a, 0x5a, 0x4c, 0x5d, 0xb0, 0x2d, 0x56,
        0xec, 0xc4, 0xc5, 0xbf, 0x34, 0x00, 0x72, 0x08, 0xd5, 0xb8, 0x87, 0x18, 0x58, 0x65,
    ];
    assert_eq!(okm, expected.to_vec());
}

#[test]
fn pbkdf2_matches_rfc_6070_case_one() {
    let okm = run_pbkdf2(Digest::Sha1, b"password", b"salt", 1, 20);
    let expected = [
        0x0cu8, 0x60, 0xc8, 0x0f, 0x96, 0x1f, 0x0e, 0x71, 0xf3, 0xa9, 0xb5, 0x24, 0xaf, 0x60,
        0x12, 0x06, 0x2f, 0xe0, 0x37, 0xa6,
    ];
    assert_eq!(okm, expected.to_vec());
}

#[test]
fn derivation_is_deterministic_for_every_function() {
    let input = random_bytes(32).unwrap();
    let salt = random_bytes(16).unwrap();
    let info = random_bytes(8).unwrap();
    for kind in [Kdf::HKdf, Kdf::Concatenation] {
        let first = kdf_inner_digest(
            kind,
            Digest::Sha256,
            &input,
            Some(salt.clone()),
            Some(info.clone()),
            44,
        )
        .unwrap();
        let second = kdf_inner_digest(
            kind,
            Digest::Sha256,
            &input,
            Some(salt.clone()),
            Some(info.clone()),
            44,
        )
        .unwrap();
        assert_eq!(first, second);
        assert_eq!(first.len(), 44);
    }
}

#[test]
fn every_digest_serves_a_long_output() {
    let input = random_bytes(32).unwrap();
    for digest in [
        Digest::Sha1,
        Digest::Sha256,
        Digest::Sha384,
        Digest::Sha512,
        Digest::Sha3_256,
        Digest::Sha3_384,
        Digest::Sha3_512,
    ] {
        // longer than one digest block: internal expansion must serve it
        let okm = kdf_inner_digest(Kdf::HKdf, digest, &input, None, None, 100).unwrap();
        assert_eq!(okm.len(), 100);
        let okm2 = kdf_inner_digest(Kdf::Concatenation, digest, &input, None, None, 100).unwrap();
        assert_eq!(okm2.len(), 100);
        assert_ne!(okm, okm2);
    }
}

#[test]
fn password_functions_demand_a_salt() {
    let input = random_bytes(16).unwrap();
    assert!(matches!(
        kdf_inner_digest(Kdf::PbKdf2, Digest::Sha256, &input, None, None, 32),
        Err(Error::Validation(_))
    ));
    assert!(matches!(
        kdf_inner_digest(Kdf::Scrypt, Digest::Sha256, &input, None, None, 32),
        Err(Error::Validation(_))
    ));
}

#[test]
fn hkdf_rejects_an_output_beyond_its_reach() {
    let input = random_bytes(16).unwrap();
    assert!(matches!(
        kdf_inner_digest(Kdf::HKdf, Digest::Sha256, &input, None, None, 255 * 32 + 1),
        Err(Error::Validation(_))
    ));
}

#[test]
fn kdf_request_round_trip() {
    let request = KdfDto {
        kdf: Kdf::HKdf,
        digest: Digest::Sha512,
        input: "736563726574".to_string(),
        input_encoding: TextEncoding::Hex,
        salt: Some("c2FsdA==".to_string()),
        salt_encoding: Some(TextEncoding::Base64),
        info: Some("info".to_string()),
        info_encoding: Some(TextEncoding::Utf8),
        output_encoding: TextEncoding::Hex,
        key_length: 44,
    };
    let first = kdf(&request).unwrap();
    let second = kdf(&request).unwrap();
    assert_eq!(first, second);
    assert_eq!(first.len(), 88);
}
