//! The upload-metadata codec: exact encodings, decodings, and the round trip.

use tus_rs::codec::{decode_pairs, encode_pairs};

fn pairs(entries: &[(&str, &[u8])]) -> Vec<(String, Vec<u8>)> {
    entries.iter().map(|(k, v)| (k.to_string(), v.to_vec())).collect()
}

#[test]
fn encode_known_value() {
    let m = pairs(&[("name", b"hello")]);
    assert_eq!(encode_pairs(&m), "name:aGVsbG8=");
}

#[test]
fn encode_empty_mapping() {
    let m: Vec<(String, Vec<u8>)> = Vec::new();
    assert_eq!(encode_pairs(&m), "");
}

#[test]
fn encode_two_entries() {
    let m = pairs(&[("a", b"x"), ("b", b"")]);
    assert_eq!(encode_pairs(&m), "a:eA==,b:");
}

#[test]
fn decode_known_value() {
    let got = decode_pairs("name:aGVsbG8=").unwrap();
    assert_eq!(got, pairs(&[("name", b"hello")]));
}

#[test]
fn decode_empty_string_is_empty_mapping() {
    let got = decode_pairs("").unwrap();
    assert!(got.is_empty());
}

#[test]
fn decode_missing_colon_fails() {
    assert!(decode_pairs("nocolon").is_none());
}

#[test]
fn decode_invalid_base64_fails() {
    assert!(decode_pairs("k:!!!").is_none());
}

#[test]
fn round_trip_simple() {
    let m = pairs(&[("filename", b"/tmp/upload.bin"), ("filetype", b"text/plain")]);
    let encoded = encode_pairs(&m);
    assert_eq!(decode_pairs(&encoded).unwrap(), m);
}

#[test]
fn round_trip_arbitrary_byte_values() {
    // values may contain the delimiter, the colon, and non-ASCII bytes
    let m = pairs(&[
        ("k1", b"a,b:c"),
        ("k2", &[0u8, 255, 44, 58, 10]),
        ("k3", b""),
    ]);
    let encoded = encode_pairs(&m);
    assert_eq!(decode_pairs(&encoded).unwrap(), m);
}

#[test]
fn round_trip_empty_mapping() {
    let m: Vec<(String, Vec<u8>)> = Vec::new();
    let encoded = encode_pairs(&m);
    assert_eq!(decode_pairs(&encoded).unwrap(), m);
}

#[test]
fn round_trip_matches_base64_crate() {
    // the encoded entry carries exactly what the base64 crate produces
    let value: Vec<u8> = (0u8..=255).collect();
    let m = pairs(&[("blob", &value)]);
    let encoded = encode_pairs(&m);
    let expected = format!(
        "blob:{}",
        base64::Engine::encode(&base64::engine::general_purpose::STANDARD, &value),
    );
    assert_eq!(encoded, expected);
    assert_eq!(decode_pairs(&encoded).unwrap(), m);
}
