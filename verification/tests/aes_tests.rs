use cryptobox::aes::{crypto_aes, encrypt_or_decrypt_aes, generate_aes, generate_iv,
    AesEncryptoinDto};
use cryptobox::common::random_bytes;
use cryptobox::enums::{AesEncryptionPadding, EncryptionMode, TextEncoding};
use cryptobox::errors::Error;

fn iv_for(mode: EncryptionMode) -> Option<Vec<u8>> {
    match mode {
        EncryptionMode::Ecb => None,
        EncryptionMode::Cbc => Some(random_bytes(16).unwrap()),
        EncryptionMode::Gcm => Some(random_bytes(12).unwrap()),
    }
}

fn round_trip(mode: EncryptionMode, padding: AesEncryptionPadding, key_len: usize, pt: &[u8]) {
    let key = random_bytes(key_len).unwrap();
    let iv = iv_for(mode);
    let ct = encrypt_or_decrypt_aes(mode, pt, &key, iv.clone(), None, padding, true).unwrap();
    let back = encrypt_or_decrypt_aes(mode, &ct, &key, iv, None, padding, false).unwrap();
    assert_eq!(back, pt.to_vec());
    if pt.len() >= 1 {
        assert_ne!(ct, pt.to_vec());
    }
}

#[test]
fn aes_round_trip_all_modes_and_padding_edges() {
    for key_len in [16usize, 32] {
        for len in [0usize, 1, 15, 16, 17] {
            let pt = random_bytes(len).unwrap();
            round_trip(EncryptionMode::Ecb, AesEncryptionPadding::Pkcs7Padding, key_len, &pt);
            round_trip(EncryptionMode::Cbc, AesEncryptionPadding::Pkcs7Padding, key_len, &pt);
            round_trip(EncryptionMode::Gcm, AesEncryptionPadding::NoPadding, key_len, &pt);
        }
        for len in [0usize, 16, 32, 48] {
            let pt = random_bytes(len).unwrap();
            round_trip(EncryptionMode::Ecb, AesEncryptionPadding::NoPadding, key_len, &pt);
            round_trip(EncryptionMode::Cbc, AesEncryptionPadding::NoPadding, key_len, &pt);
        }
    }
}

#[test]
fn gcm_appends_a_sixteen_byte_tag() {
    let key = random_bytes(32).unwrap();
    let nonce = random_bytes(12).unwrap();
    let pt = b"nine byte";
    let ct = encrypt_or_decrypt_aes(
        EncryptionMode::Gcm,
        pt,
        &key,
        Some(nonce),
        None,
        AesEncryptionPadding::NoPadding,
        true,
    )
    .unwrap();
    assert_eq!(ct.len(), pt.len() + 16);
}

#[test]
fn gcm_detects_any_single_byte_tamper() {
    let key = random_bytes(32).unwrap();
    let nonce = random_bytes(12).unwrap();
    let aad = random_bytes(16).unwrap();
    let pt = b"plaintext";
    let ct = encrypt_or_decrypt_aes(
        EncryptionMode::Gcm,
        pt,
        &key,
        Some(nonce.clone()),
        Some(aad.clone()),
        AesEncryptionPadding::NoPadding,
        true,
    )
    .unwrap();
    for i in 0..ct.len() {
        let mut corrupted = ct.clone();
        corrupted[i] ^= 0x01;
        let outcome = encrypt_or_decrypt_aes(
            EncryptionMode::Gcm,
            &corrupted,
            &key,
            Some(nonce.clone()),
            Some(aad.clone()),
            AesEncryptionPadding::NoPadding,
            false,
        );
        match outcome {
            Err(Error::CryptoFailed) => {}
            Err(other) => panic!("tamper at byte {} gave the wrong error: {:?}", i, other),
            Ok(_) => panic!("tamper at byte {} went unnoticed", i),
        }
    }
}

#[test]
fn gcm_scenario_fresh_key_and_iv() {
    // AES-256-GCM over the 9-byte payload with a fresh key and a
    // 12-byte IV and no associated data.
    let key = random_bytes(32).unwrap();
    let iv = random_bytes(12).unwrap();
    let pt = b"plaintext";
    let ct = encrypt_or_decrypt_aes(
        EncryptionMode::Gcm,
        pt,
        &key,
        Some(iv.clone()),
        None,
        AesEncryptionPadding::NoPadding,
        true,
    )
    .unwrap();
    let back = encrypt_or_decrypt_aes(
        EncryptionMode::Gcm,
        &ct,
        &key,
        Some(iv),
        None,
        AesEncryptionPadding::NoPadding,
        false,
    )
    .unwrap();
    assert_eq!(back, pt.to_vec());
}

#[test]
fn aes_rejects_malformed_requests() {
    let key = random_bytes(32).unwrap();
    let pt = random_bytes(16).unwrap();
    // a key that selects no AES variant
    match encrypt_or_decrypt_aes(
        EncryptionMode::Ecb,
        &pt,
        &random_bytes(10).unwrap(),
        None,
        None,
        AesEncryptionPadding::NoPadding,
        true,
    ) {
        Err(Error::Unsupported(_)) => {}
        other => panic!("expected unsupported, got {:?}", other.map(|_| ())),
    }
    // ECB takes no IV
    assert!(matches!(
        encrypt_or_decrypt_aes(
            EncryptionMode::Ecb,
            &pt,
            &key,
            Some(random_bytes(16).unwrap()),
            None,
            AesEncryptionPadding::NoPadding,
            true,
        ),
        Err(Error::Validation(_))
    ));
    // CBC demands a 16-byte IV
    assert!(matches!(
        encrypt_or_decrypt_aes(
            EncryptionMode::Cbc,
            &pt,
            &key,
            Some(random_bytes(12).unwrap()),
            None,
            AesEncryptionPadding::NoPadding,
            true,
        ),
        Err(Error::Validation(_))
    ));
    // GCM demands a 12-byte nonce and takes no padding scheme
    assert!(matches!(
        encrypt_or_decrypt_aes(
            EncryptionMode::Gcm,
            &pt,
            &key,
            Some(random_bytes(16).unwrap()),
            None,
            AesEncryptionPadding::NoPadding,
            true,
        ),
        Err(Error::Validation(_))
    ));
    assert!(matches!(
        encrypt_or_decrypt_aes(
            EncryptionMode::Gcm,
            &pt,
            &key,
            Some(random_bytes(12).unwrap()),
            None,
            AesEncryptionPadding::Pkcs7Padding,
            true,
        ),
        Err(Error::Validation(_))
    ));
    // NoPadding demands whole blocks
    assert!(matches!(
        encrypt_or_decrypt_aes(
            EncryptionMode::Ecb,
            &random_bytes(15).unwrap(),
            &key,
            None,
            None,
            AesEncryptionPadding::NoPadding,
            true,
        ),
        Err(Error::Validation(_))
    ));
}

#[test]
fn aes_request_fields_demand_a_decodable_encoding() {
    let encoding = TextEncoding::Base64;
    let key = generate_aes(256, encoding).unwrap();
    let template = AesEncryptoinDto {
        input: "plaintext".to_string(),
        input_encoding: TextEncoding::Utf8,
        key: key.clone(),
        key_encoding: encoding,
        output_encoding: encoding,
        mode: EncryptionMode::Gcm,
        padding: AesEncryptionPadding::NoPadding,
        iv: Some("!!not-base64!!".to_string()),
        iv_encoding: Some(encoding),
        aad: None,
        aad_encoding: None,
        for_encryption: true,
    };
    // an IV that does not decode under its declared encoding
    assert!(matches!(crypto_aes(&template), Err(Error::Validation(_))));
    // an IV with no declared encoding at all
    let unannotated = AesEncryptoinDto {
        iv: Some(generate_iv(12, encoding).unwrap()),
        iv_encoding: None,
        key: key.clone(),
        ..template
    };
    assert!(matches!(crypto_aes(&unannotated), Err(Error::Validation(_))));
    // associated data without an encoding
    let bad_aad = AesEncryptoinDto {
        iv: Some(generate_iv(12, encoding).unwrap()),
        iv_encoding: Some(encoding),
        aad: Some("context".to_string()),
        aad_encoding: None,
        key,
        ..unannotated
    };
    assert!(matches!(crypto_aes(&bad_aad), Err(Error::Validation(_))));
}

#[test]
fn cbc_pkcs7_rejects_garbled_pads() {
    let key = random_bytes(16).unwrap();
    let iv = random_bytes(16).unwrap();
    // a random full block almost never carries a valid pad; decrypt
    // must fail closed rather than hand back garbage
    let mut rejected = 0;
    for _ in 0..8 {
        let fake_ct = random_bytes(16).unwrap();
        if matches!(
            encrypt_or_decrypt_aes(
                EncryptionMode::Cbc,
                &fake_ct,
                &key,
                Some(iv.clone()),
                None,
                AesEncryptionPadding::Pkcs7Padding,
                false,
            ),
            Err(Error::CryptoFailed)
        ) {
            rejected += 1;
        }
    }
    assert!(rejected >= 7);
}

#[test]
fn test_aes_gcm_generate_and_encryption() {
    for key_size in [128, 256] {
        let plaintext = "plaintext";
        let encoding = TextEncoding::Base64;
        let key = generate_aes(key_size, encoding).unwrap();
        let iv = generate_iv(12, encoding).unwrap();
        let aad_bytes = random_bytes(128).unwrap();
        let aad = encoding.encode(&aad_bytes).unwrap();
        let ciphertext = crypto_aes(&AesEncryptoinDto {
            input: plaintext.to_string(),
            input_encoding: TextEncoding::Utf8,
            key: key.to_string(),
            key_encoding: encoding,
            output_encoding: encoding,
            mode: EncryptionMode::Gcm,
            padding: AesEncryptionPadding::NoPadding,
            iv: Some(iv.to_string()),
            iv_encoding: Some(encoding),
            aad: Some(aad.to_string()),
            aad_encoding: Some(encoding),
            for_encryption: true,
        })
        .unwrap();
        assert_eq!(
            plaintext,
            crypto_aes(&AesEncryptoinDto {
                input: ciphertext,
                input_encoding: encoding,
                key,
                key_encoding: encoding,
                output_encoding: TextEncoding::Utf8,
                mode: EncryptionMode::Gcm,
                padding: AesEncryptionPadding::NoPadding,
                iv: Some(iv),
                iv_encoding: Some(encoding),
                aad: Some(aad),
                aad_encoding: Some(encoding),
                for_encryption: false
            })
            .unwrap()
        )
    }
}
