use cryptobox::codec::{
    base64_decode, base64_encode, convert_encoding, hex_decode_bytes, hex_encode_bytes,
    string_decode, string_encode,
};
use cryptobox::enums::TextEncoding;
use cryptobox::errors::Error;

#[test]
fn hex_encodes_exact_digits() {
    assert_eq!(hex_encode_bytes(&[0x00, 0x0f, 0xab, 0xff]), b"000fabff".to_vec());
    assert_eq!(hex_encode_bytes(&[]), Vec::<u8>::new());
}

#[test]
fn hex_round_trip() {
    let data: Vec<u8> = (0u16..=255).map(|b| b as u8).collect();
    let encoded = hex_encode_bytes(&data);
    let decoded = hex_decode_bytes(&encoded).unwrap();
    assert_eq!(decoded, data);
}

#[test]
fn hex_rejects_odd_and_foreign_bytes() {
    assert!(hex_decode_bytes(b"abc").is_err());
    assert!(hex_decode_bytes(b"AB").is_err());
    assert!(hex_decode_bytes(b"0g").is_err());
}

#[test]
fn base64_encodes_exact_text() {
    assert_eq!(base64_encode(b"hello"), b"aGVsbG8=".to_vec());
    assert_eq!(base64_encode(b""), Vec::<u8>::new());
}

#[test]
fn base64_round_trip() {
    let data: Vec<u8> = (0u16..=255).map(|b| b as u8).collect();
    for cut in [0usize, 1, 2, 3, 255] {
        let part = &data[..cut.min(data.len())];
        let encoded = base64_encode(part);
        let decoded = base64_decode(&encoded).unwrap();
        assert_eq!(decoded, part.to_vec());
    }
}

#[test]
fn base64_rejects_foreign_text() {
    assert!(base64_decode(b"!!!!").is_none());
    // strict base64: the canonical padded form is required
    assert!(base64_decode(b"aGVsbG8").is_none());
}

#[test]
fn text_encoding_round_trips() {
    let data = b"engine payload".to_vec();
    for encoding in [TextEncoding::Base64, TextEncoding::Hex, TextEncoding::Utf8] {
        let text = encoding.encode(&data).unwrap();
        let back = encoding.decode(&text).unwrap();
        assert_eq!(back, data);
    }
}

#[test]
fn utf8_encoding_rejects_invalid_bytes() {
    match TextEncoding::Utf8.encode(&[0xff, 0xfe]) {
        Err(Error::Format(_)) => {}
        other => panic!("expected a format error, got {:?}", other.map(|_| ())),
    }
}

#[test]
fn convert_encoding_between_hex_and_base64() {
    let converted = convert_encoding("68656c6c6f", TextEncoding::Hex, TextEncoding::Base64)
        .unwrap();
    assert_eq!(converted, "aGVsbG8=");
    let back = convert_encoding(&converted, TextEncoding::Base64, TextEncoding::Utf8).unwrap();
    assert_eq!(back, "hello");
}

#[test]
fn string_codec_round_trip() {
    let s = string_encode(b"some text").unwrap();
    assert_eq!(s, "some text");
    assert_eq!(string_decode(&s).unwrap(), b"some text".to_vec());
}
