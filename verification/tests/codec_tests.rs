use circles_identity::codec::base64_decode;
use circles_identity::codec::base64_encode;
use circles_identity::codec::base64_url_encode;
use circles_identity::codec::hex_encode;

#[test]
fn base64_encode_known_values() {
    assert_eq!(base64_encode(b""), "");
    assert_eq!(base64_encode(b"hi"), "aGk=");
    assert_eq!(base64_encode(b"hello"), "aGVsbG8=");
    assert_eq!(base64_encode(&[0xfb, 0xef, 0xbe]), "++++");
    assert_eq!(base64_encode(&[0xff]), "/w==");
}

#[test]
fn base64_decode_round_trip() {
    assert_eq!(base64_decode("aGk="), Ok(b"hi".to_vec()));
    assert_eq!(base64_decode(""), Ok(Vec::new()));
    let data: Vec<u8> = (0u8..=255u8).collect();
    let encoded = base64_encode(&data);
    assert_eq!(base64_decode(&encoded), Ok(data));
    assert!(base64_decode("not base64!!!").is_err());
}

#[test]
fn base64_url_encode_known_values() {
    assert_eq!(base64_url_encode(b""), "");
    assert_eq!(base64_url_encode(b"hello"), "aGVsbG8");
    assert_eq!(base64_url_encode(&[0xfb, 0xef, 0xbe]), "----");
    assert_eq!(base64_url_encode(&[0xff]), "_w");
    assert_eq!(base64_url_encode(&[0xff, 0xee]), "_-4");
}

#[test]
fn base64_url_encode_matches_engine() {
    let data: Vec<u8> = (0u8..=255u8).collect();
    let expected = base64::Engine::encode(
        &base64::engine::general_purpose::URL_SAFE_NO_PAD,
        &data,
    );
    assert_eq!(base64_url_encode(&data), expected);
}

#[test]
fn hex_encode_known_values() {
    assert_eq!(hex_encode(&[]), "");
    assert_eq!(hex_encode(&[0x0f, 0xa0]), "0fa0");
    assert_eq!(hex_encode(&[0x00, 0xff, 0x1a]), "00ff1a");
}
