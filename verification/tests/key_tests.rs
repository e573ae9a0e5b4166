use cryptobox::codec::PkcsDto;
use cryptobox::common::{random_id, KeyTuple};
use cryptobox::ecc::{
    ec_generate, export_ecc_private_key, export_ecc_public_key, generate_ecc, derive_ecc,
    import_ecc_private_key, import_ecc_public_key, parse_curve_name, parse_ecc,
    pkcs8_sec1_converter, transfer_ecc_key,
};
use cryptobox::edwards::{
    derive_edwards, export_curve_25519_private_key, generate_curve_25519_key, generate_edwards,
    import_curve_25519_private_key, transfer_edwards_key,
};
use cryptobox::enums::{EccCurveName, EdwardsCurveName, KeyFormat, Pkcs, TextEncoding};
use cryptobox::errors::Error;
use cryptobox::pem::{pem_decode, pem_encode};
use cryptobox::rsa_keys::{
    bytes_to_private_key, generate_rsa_pkcs1, parse_rsa, pkcs8_pkcs1_converter_inner,
    private_key_to_bytes, transfer_rsa_key,
};

const CURVES: [EccCurveName; 5] = [
    EccCurveName::NistP256,
    EccCurveName::NistP384,
    EccCurveName::NistP521,
    EccCurveName::Secp256k1,
    EccCurveName::SM2,
];

fn dto(pkcs: Pkcs, format: KeyFormat) -> PkcsDto {
    PkcsDto { pkcs, format, encoding: TextEncoding::Base64 }
}

#[test]
fn pem_encoder_matches_the_reference_implementation() {
    for len in [1usize, 31, 47, 48, 49, 64, 200] {
        let der: Vec<u8> = (0..len).map(|i| (i * 7 % 251) as u8).collect();
        let mine = pem_encode(b"PRIVATE KEY", &der);
        let reference =
            pem_rfc7468::encode_string("PRIVATE KEY", pem_rfc7468::LineEnding::LF, &der).unwrap();
        assert_eq!(mine, reference.into_bytes());
    }
}

#[test]
fn pem_decoder_validates_the_label() {
    let (scalar, _point) = ec_generate(EccCurveName::NistP256);
    let sec1_pem =
        export_ecc_private_key(EccCurveName::NistP256, &scalar, Pkcs::Sec1, KeyFormat::Pem)
            .unwrap();
    // the document carries the SEC1 label; reading it as PKCS8 is a
    // format error, never a silent coercion
    assert!(pem_decode(&sec1_pem, b"EC PRIVATE KEY").is_ok());
    assert!(matches!(pem_decode(&sec1_pem, b"PRIVATE KEY"), Err(Error::Format(_))));
    assert!(matches!(
        import_ecc_private_key(EccCurveName::NistP256, &sec1_pem, Pkcs::Pkcs8, KeyFormat::Pem),
        Err(Error::Format(_))
    ));
}

#[test]
fn ecc_transcoding_round_trips_every_container_pair() {
    let pairs = [
        (Pkcs::Pkcs8, KeyFormat::Der),
        (Pkcs::Pkcs8, KeyFormat::Pem),
        (Pkcs::Sec1, KeyFormat::Der),
        (Pkcs::Sec1, KeyFormat::Pem),
    ];
    for curve in CURVES {
        let (scalar, point) = ec_generate(curve);
        for (c1, s1) in pairs {
            let original = export_ecc_private_key(curve, &scalar, c1, s1).unwrap();
            for (c2, s2) in pairs {
                let there =
                    pkcs8_sec1_converter(curve, &original, dto(c1, s1), dto(c2, s2), false)
                        .unwrap();
                let back =
                    pkcs8_sec1_converter(curve, &there, dto(c2, s2), dto(c1, s1), false).unwrap();
                assert_eq!(back, original);
            }
        }
        for s1 in [KeyFormat::Der, KeyFormat::Pem] {
            let original = export_ecc_public_key(curve, &point, s1).unwrap();
            for s2 in [KeyFormat::Der, KeyFormat::Pem] {
                let there = pkcs8_sec1_converter(
                    curve,
                    &original,
                    dto(Pkcs::Pkcs8, s1),
                    dto(Pkcs::Pkcs8, s2),
                    true,
                )
                .unwrap();
                let back = pkcs8_sec1_converter(
                    curve,
                    &there,
                    dto(Pkcs::Pkcs8, s2),
                    dto(Pkcs::Pkcs8, s1),
                    true,
                )
                .unwrap();
                assert_eq!(back, original);
            }
        }
    }
}

#[test]
fn nist_p256_der_to_sec1_pem_and_back() {
    // generate a NIST P-256 pair in (PKCS8, DER), transcode the
    // private key to (SEC1, PEM), transcode back, and compare bytes.
    let (scalar, _point) = ec_generate(EccCurveName::NistP256);
    let original =
        export_ecc_private_key(EccCurveName::NistP256, &scalar, Pkcs::Pkcs8, KeyFormat::Der)
            .unwrap();
    let there = pkcs8_sec1_converter(
        EccCurveName::NistP256,
        &original,
        dto(Pkcs::Pkcs8, KeyFormat::Der),
        dto(Pkcs::Sec1, KeyFormat::Pem),
        false,
    )
    .unwrap();
    let back = pkcs8_sec1_converter(
        EccCurveName::NistP256,
        &there,
        dto(Pkcs::Sec1, KeyFormat::Pem),
        dto(Pkcs::Pkcs8, KeyFormat::Der),
        false,
    )
    .unwrap();
    assert_eq!(back, original);
}

#[test]
fn rsa_transcoding_round_trips_every_container_pair() {
    let (private_pkcs1, public_pkcs1) = generate_rsa_pkcs1(2048).unwrap();
    let pairs = [
        (Pkcs::Pkcs8, KeyFormat::Der),
        (Pkcs::Pkcs8, KeyFormat::Pem),
        (Pkcs::Pkcs1, KeyFormat::Der),
        (Pkcs::Pkcs1, KeyFormat::Pem),
    ];
    for (c1, s1) in pairs {
        let original = private_key_to_bytes(&private_pkcs1, c1, s1).unwrap();
        for (c2, s2) in pairs {
            let there =
                pkcs8_pkcs1_converter_inner(&original, dto(c1, s1), dto(c2, s2), false).unwrap();
            let back =
                pkcs8_pkcs1_converter_inner(&there, dto(c2, s2), dto(c1, s1), false).unwrap();
            assert_eq!(back, original);
        }
        let pub_original =
            cryptobox::rsa_keys::public_key_to_bytes(&public_pkcs1, c1, s1).unwrap();
        for (c2, s2) in pairs {
            let there =
                pkcs8_pkcs1_converter_inner(&pub_original, dto(c1, s1), dto(c2, s2), true)
                    .unwrap();
            let back =
                pkcs8_pkcs1_converter_inner(&there, dto(c2, s2), dto(c1, s1), true).unwrap();
            assert_eq!(back, pub_original);
        }
    }
}

#[test]
fn generated_text_keys_derive_their_own_public_half() {
    for curve in [EccCurveName::NistP256, EccCurveName::Secp256k1] {
        let tuple = generate_ecc(curve, Pkcs::Pkcs8, KeyFormat::Pem, TextEncoding::Base64)
            .unwrap();
        let private_text = tuple.0.clone().unwrap();
        let public_text = tuple.1.clone().unwrap();
        let derived = derive_ecc(
            curve,
            &private_text,
            Pkcs::Pkcs8,
            KeyFormat::Pem,
            TextEncoding::Base64,
        )
        .unwrap();
        assert_eq!(derived, public_text);
    }
}

#[test]
fn transfer_ecc_key_converts_both_halves() {
    let tuple =
        generate_ecc(EccCurveName::NistP384, Pkcs::Pkcs8, KeyFormat::Der, TextEncoding::Base64)
            .unwrap();
    let moved = transfer_ecc_key(
        EccCurveName::NistP384,
        tuple.0.clone(),
        tuple.1.clone(),
        dto(Pkcs::Pkcs8, KeyFormat::Der),
        dto(Pkcs::Sec1, KeyFormat::Pem),
    )
    .unwrap();
    let back = transfer_ecc_key(
        EccCurveName::NistP384,
        moved.0,
        moved.1,
        dto(Pkcs::Sec1, KeyFormat::Pem),
        dto(Pkcs::Pkcs8, KeyFormat::Der),
    )
    .unwrap();
    assert_eq!(back.0, tuple.0);
    assert_eq!(back.1, tuple.1);
}

#[test]
fn transfer_rsa_key_converts_both_halves() {
    let (private_pkcs1, public_pkcs1) = generate_rsa_pkcs1(2048).unwrap();
    let private_der = private_key_to_bytes(&private_pkcs1, Pkcs::Pkcs8, KeyFormat::Der).unwrap();
    let public_der =
        cryptobox::rsa_keys::public_key_to_bytes(&public_pkcs1, Pkcs::Pkcs8, KeyFormat::Der)
            .unwrap();
    let enc = TextEncoding::Base64;
    let moved = transfer_rsa_key(
        Some(enc.encode(&private_der).unwrap()),
        Some(enc.encode(&public_der).unwrap()),
        dto(Pkcs::Pkcs8, KeyFormat::Der),
        dto(Pkcs::Pkcs1, KeyFormat::Pem),
    )
    .unwrap();
    let back = transfer_rsa_key(
        moved.0.clone(),
        moved.1.clone(),
        dto(Pkcs::Pkcs1, KeyFormat::Pem),
        dto(Pkcs::Pkcs8, KeyFormat::Der),
    )
    .unwrap();
    assert_eq!(back.0.unwrap(), enc.encode(&private_der).unwrap());
    assert_eq!(back.1.unwrap(), enc.encode(&public_der).unwrap());
}

#[test]
fn parse_ecc_recognises_container_and_curve() {
    let (scalar, _point) = ec_generate(EccCurveName::NistP384);
    let pem =
        export_ecc_private_key(EccCurveName::NistP384, &scalar, Pkcs::Pkcs8, KeyFormat::Pem)
            .unwrap();
    let info = parse_ecc(&String::from_utf8(pem.clone()).unwrap()).unwrap();
    assert_eq!(info.curve_name, EccCurveName::NistP384);
    assert_eq!(info.pkcs, Pkcs::Pkcs8);
    assert_eq!(info.format, KeyFormat::Pem);
    assert_eq!(info.encoding, TextEncoding::Utf8);

    let der = export_ecc_private_key(EccCurveName::NistP384, &scalar, Pkcs::Sec1, KeyFormat::Der)
        .unwrap();
    let text = TextEncoding::Base64.encode(&der).unwrap();
    let info = parse_ecc(&text).unwrap();
    assert_eq!(info.curve_name, EccCurveName::NistP384);
    assert_eq!(info.pkcs, Pkcs::Sec1);
    assert_eq!(info.format, KeyFormat::Der);
    assert_eq!(info.encoding, TextEncoding::Base64);
}

#[test]
fn parse_curve_name_walks_the_priority_order() {
    let (scalar, _point) = ec_generate(EccCurveName::SM2);
    let der = export_ecc_private_key(EccCurveName::SM2, &scalar, Pkcs::Pkcs8, KeyFormat::Der)
        .unwrap();
    assert_eq!(
        parse_curve_name(&der, Pkcs::Pkcs8, KeyFormat::Der).unwrap(),
        EccCurveName::SM2
    );
    assert!(matches!(
        parse_curve_name(&der, Pkcs::Pkcs1, KeyFormat::Der),
        Err(Error::Unsupported(_))
    ));
}

#[test]
fn parse_rsa_recognises_container_and_size() {
    let (private_pkcs1, _public) = generate_rsa_pkcs1(2048).unwrap();
    let pem = private_key_to_bytes(&private_pkcs1, Pkcs::Pkcs1, KeyFormat::Pem).unwrap();
    let info = parse_rsa(&String::from_utf8(pem).unwrap()).unwrap();
    assert_eq!(info.key_size, 2048);
    assert_eq!(info.pkcs, Pkcs::Pkcs1);
    assert_eq!(info.format, KeyFormat::Pem);
    let reparsed = bytes_to_private_key(
        &private_key_to_bytes(&private_pkcs1, Pkcs::Pkcs8, KeyFormat::Der).unwrap(),
        Pkcs::Pkcs8,
        KeyFormat::Der,
    )
    .unwrap();
    assert_eq!(reparsed, private_pkcs1);
}

#[test]
fn edwards_keys_round_trip_between_serializations() {
    let tuple =
        generate_edwards(EdwardsCurveName::Curve25519, KeyFormat::Pem, TextEncoding::Base64)
            .unwrap();
    let moved = transfer_edwards_key(
        EdwardsCurveName::Curve25519,
        tuple.0.clone(),
        tuple.1.clone(),
        dto(Pkcs::Pkcs8, KeyFormat::Pem),
        dto(Pkcs::Pkcs8, KeyFormat::Der),
    )
    .unwrap();
    let back = transfer_edwards_key(
        EdwardsCurveName::Curve25519,
        moved.0,
        moved.1,
        dto(Pkcs::Pkcs8, KeyFormat::Der),
        dto(Pkcs::Pkcs8, KeyFormat::Pem),
    )
    .unwrap();
    assert_eq!(back.0, tuple.0);
    assert_eq!(back.1, tuple.1);

    let private_text = tuple.0.unwrap();
    let derived = derive_edwards(
        EdwardsCurveName::Curve25519,
        &private_text,
        KeyFormat::Pem,
        TextEncoding::Base64,
    )
    .unwrap();
    assert_eq!(derived, tuple.1.unwrap());
}

#[test]
fn edwards_private_key_exports_deterministically() {
    let (private_doc, _public_doc) = generate_curve_25519_key(KeyFormat::Der).unwrap();
    let seed = import_curve_25519_private_key(&private_doc, KeyFormat::Der).unwrap();
    let a = export_curve_25519_private_key(&seed, KeyFormat::Der);
    let b = export_curve_25519_private_key(&seed, KeyFormat::Der);
    assert_eq!(a, b);
    assert_eq!(a, private_doc);
}

#[test]
fn key_tuple_holds_what_it_was_given() {
    let mut t = KeyTuple::empty();
    assert!(t.0.is_none() && t.1.is_none());
    t.private(Some("a".to_string()));
    t.public(Some("b".to_string()));
    assert_eq!(t.0.as_deref(), Some("a"));
    assert_eq!(t.1.as_deref(), Some("b"));
    let t2 = KeyTuple::new("p".to_string(), "q".to_string());
    assert_eq!(t2.0.as_deref(), Some("p"));
    assert_eq!(t2.1.as_deref(), Some("q"));
}

#[test]
fn random_ids_are_nonempty_text() {
    let id = random_id().unwrap();
    assert!(!id.is_empty());
    assert!(id.chars().all(|c| c.is_ascii_alphanumeric()));
}
