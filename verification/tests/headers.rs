//! String utilities, the header table, and the typed decoding of raw headers.

use tus_rs::headers::{default_headers, headers_insert, TusHeaders};
use tus_rs::info::TusExtension;
use tus_rs::strutil::{lookup_header, parse_usize, split_char, split_once, str_eq};

fn hs(entries: &[(&str, &str)]) -> Vec<(String, String)> {
    entries.iter().map(|(k, v)| (k.to_string(), v.to_string())).collect()
}

#[test]
fn parse_usize_values() {
    assert_eq!(parse_usize("0"), Some(0));
    assert_eq!(parse_usize("64"), Some(64));
    assert_eq!(parse_usize("18446744073709551615"), Some(usize::MAX));
}

#[test]
fn parse_usize_rejects() {
    assert_eq!(parse_usize(""), None);
    assert_eq!(parse_usize("12a"), None);
    assert_eq!(parse_usize("-1"), None);
    assert_eq!(parse_usize(" 7"), None);
    assert_eq!(parse_usize("18446744073709551616"), None);
    assert_eq!(parse_usize("99999999999999999999999999"), None);
}

#[test]
fn split_char_segments() {
    let got = split_char("a,b,,c", ',');
    assert_eq!(got, vec!["a".to_string(), "b".to_string(), "".to_string(), "c".to_string()]);
    assert_eq!(split_char("", ','), vec!["".to_string()]);
    assert_eq!(split_char("solo", ','), vec!["solo".to_string()]);
}

#[test]
fn split_once_first_separator() {
    let (k, v) = split_once("k:v:w", ':').unwrap();
    assert_eq!(k, "k");
    assert_eq!(v, "v:w");
    assert!(split_once("kv", ':').is_none());
}

#[test]
fn str_eq_by_contents() {
    assert!(str_eq("abc", "abc"));
    assert!(!str_eq("abc", "abd"));
    assert!(!str_eq("abc", "ab"));
}

#[test]
fn default_headers_carry_protocol_version() {
    let d = default_headers();
    assert_eq!(d, hs(&[("tus-resumable", "1.0.0")]));
}

#[test]
fn insert_replaces_in_place_or_appends() {
    let base = hs(&[("a", "1"), ("b", "2")]);
    let replaced = headers_insert(&base, "a", "9");
    assert_eq!(replaced, hs(&[("a", "9"), ("b", "2")]));
    let appended = headers_insert(&base, "c", "3");
    assert_eq!(appended, hs(&[("a", "1"), ("b", "2"), ("c", "3")]));
}

#[test]
fn lookup_first_match() {
    let base = hs(&[("a", "1"), ("a", "2")]);
    assert_eq!(lookup_header(&base, "a"), Some("1".to_string()));
    assert_eq!(lookup_header(&base, "z"), None);
}

#[test]
fn typed_decode_full_set() {
    let raw = hs(&[
        ("tus-resumable", "1.0.0"),
        ("upload-offset", "64"),
        ("upload-length", "128"),
        ("tus-version", "1.0.0,0.2.2"),
        ("tus-max-size", "1073741824"),
        ("tus-extension", "creation,termination,bogus"),
        ("tus-checksum-algorithm", "sha1,md5"),
        ("location", "http://example.com/files/abc"),
        ("upload-metadata", "name:aGVsbG8="),
    ]);
    let th = TusHeaders::from_pairs(&raw);
    assert_eq!(th.offset, Some(64));
    assert_eq!(th.upload_length, Some(128));
    assert_eq!(th.version, Some("1.0.0".to_string()));
    assert_eq!(th.resumable, Some("1.0.0".to_string()));
    assert_eq!(th.supported_versions, Some(vec!["1.0.0".to_string(), "0.2.2".to_string()]));
    assert_eq!(th.max_size, Some(1073741824));
    assert!(matches!(
        th.extensions.as_deref(),
        Some([TusExtension::Creation, TusExtension::Termination])
    ));
    assert_eq!(th.checksum_algorithms, Some(vec!["sha1".to_string(), "md5".to_string()]));
    assert_eq!(th.location, Some("http://example.com/files/abc".to_string()));
    assert_eq!(th.upload_metadata, Some(vec![("name".to_string(), b"hello".to_vec())]));
}

#[test]
fn typed_decode_is_lenient() {
    let raw = hs(&[("upload-offset", "not-a-number"), ("upload-metadata", "broken")]);
    let th = TusHeaders::from_pairs(&raw);
    assert_eq!(th.offset, None);
    assert_eq!(th.upload_length, None);
    assert_eq!(th.version, None);
    assert_eq!(th.supported_versions, None);
    assert!(th.extensions.is_none());
    assert_eq!(th.max_size, None);
    assert_eq!(th.upload_metadata, None);
    assert_eq!(th.location, None);
}

#[test]
fn extension_tokens() {
    assert!(matches!(TusExtension::from_str("creation"), Ok(TusExtension::Creation)));
    assert!(matches!(
        TusExtension::from_str("creation-with-upload"),
        Ok(TusExtension::CreationWithUpload)
    ));
    assert!(matches!(
        TusExtension::from_str("creation-defer-length"),
        Ok(TusExtension::CreationDeferLength)
    ));
    assert!(matches!(TusExtension::from_str("expiration"), Ok(TusExtension::Expiration)));
    assert!(matches!(TusExtension::from_str("concatenation"), Ok(TusExtension::Concatenation)));
    assert!(TusExtension::from_str("Creation").is_err());
}
