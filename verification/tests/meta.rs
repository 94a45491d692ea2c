//! The metadata record: path validation, construction, the encoded metadata
//! header, and the updated-copy methods.

use tus_rs::errors::TusError;
use tus_rs::upload_meta::{basename_of, validate_path, FileInfo, UploadMeta, UploadStatus};

fn regular(len: usize) -> FileInfo {
    FileInfo { exists: true, is_dir: false, len }
}

fn new_meta(path: &str, host: &str, len: usize) -> UploadMeta {
    UploadMeta::new(path.to_string(), host.to_string(), &regular(len), None, None, None).unwrap()
}

#[test]
fn basenames() {
    assert_eq!(basename_of("/tmp/a.txt"), "a.txt");
    assert_eq!(basename_of("plain"), "plain");
    assert_eq!(basename_of("dir/"), "");
    assert_eq!(basename_of("/"), "");
    assert_eq!(basename_of(""), "");
}

#[test]
fn status_new() {
    let s = UploadStatus::new(128, None);
    assert_eq!(s.size, 128);
    assert_eq!(s.bytes_uploaded, 0);
    let s = UploadStatus::new(128, Some(64));
    assert_eq!(s.bytes_uploaded, 64);
}

#[test]
fn path_must_exist() {
    let info = FileInfo { exists: false, is_dir: false, len: 0 };
    assert!(matches!(
        validate_path("/tmp/a.txt", &info),
        Err(TusError::FileReadError(m)) if m == "File not found"
    ));
}

#[test]
fn path_must_not_be_directory() {
    let info = FileInfo { exists: true, is_dir: true, len: 0 };
    assert!(matches!(
        validate_path("/tmp", &info),
        Err(TusError::FileReadError(m)) if m == "Cannot be a directory"
    ));
}

#[test]
fn path_needs_a_filename() {
    assert!(matches!(validate_path("/tmp/dir/", &regular(1)), Err(TusError::EmptyFilename)));
    assert!(matches!(validate_path("/", &regular(1)), Err(TusError::EmptyFilename)));
    assert!(validate_path("/tmp/a.txt", &regular(1)).is_ok());
}

#[test]
fn new_meta_initial_state() {
    let m = new_meta("/tmp/a.txt", "http://example.com", 128);
    assert_eq!(m.file_path, "/tmp/a.txt");
    assert_eq!(m.upload_host, "http://example.com/");
    assert!(m.remote_url.is_none());
    assert_eq!(m.status.size, 128);
    assert_eq!(m.status.bytes_uploaded, 0);
    assert_eq!(m.version, "1");
    assert!(m.mime_type.is_none());
    assert_eq!(m.error_count, 0);
}

#[test]
fn new_meta_rejects_progress_beyond_size() {
    let r = UploadMeta::new(
        "/tmp/a.txt".to_string(),
        "http://example.com".to_string(),
        &regular(10),
        Some(11),
        None,
        None,
    );
    assert!(matches!(r, Err(TusError::UnequalSizeError)));
}

#[test]
fn new_meta_rejects_malformed_host() {
    let r = UploadMeta::new(
        "/tmp/a.txt".to_string(),
        "not a url".to_string(),
        &regular(10),
        None,
        None,
        None,
    );
    assert!(matches!(r, Err(TusError::StringParseError(m)) if m == "Malformed Url"));
}

#[test]
fn upload_complete_threshold() {
    let m = new_meta("/tmp/a.txt", "http://example.com", 2);
    assert!(!m.upload_complete());
    let m2 = m.with_bytes_uploaded(2);
    assert!(m2.upload_complete());
    assert_eq!(m.status.bytes_uploaded, 0, "the original snapshot is untouched");
}

#[test]
fn remote_dest_is_set_once_parsed() {
    let m = new_meta("/tmp/a.txt", "http://example.com", 2);
    let m2 = m.with_remote_dest("http://example.com/files/abc".to_string()).unwrap();
    assert_eq!(m2.remote_url, Some("http://example.com/files/abc".to_string()));
    assert!(m.remote_url.is_none(), "the original snapshot is untouched");
    assert!(matches!(
        m.with_remote_dest(":bad:".to_string()),
        Err(TusError::StringParseError(_))
    ));
}

#[test]
fn data_orders_filename_filetype_extra() {
    let mut m = new_meta("/tmp/a.txt", "http://example.com", 2);
    m.mime_type = Some("text/plain".to_string());
    m.extra_meta = Some(vec![("author".to_string(), "someone".to_string())]);
    let d = m.data().unwrap();
    assert_eq!(
        d,
        vec![
            ("filename".to_string(), "/tmp/a.txt".to_string()),
            ("filetype".to_string(), "text/plain".to_string()),
            ("author".to_string(), "someone".to_string()),
        ]
    );
}

#[test]
fn extra_meta_replaces_earlier_keys() {
    let mut m = new_meta("/tmp/a.txt", "http://example.com", 2);
    m.extra_meta = Some(vec![("filename".to_string(), "other".to_string())]);
    let d = m.data().unwrap();
    assert_eq!(d, vec![("filename".to_string(), "other".to_string())]);
}

#[test]
fn data64_encodes_each_value() {
    let m = new_meta("/name", "http://example.com", 2);
    // base64 of "/name" as the base64 crate computes it
    let expected = format!(
        "filename:{}",
        base64::Engine::encode(&base64::engine::general_purpose::STANDARD, b"/name"),
    );
    assert_eq!(m.data64().unwrap(), expected);
    assert_ne!(m.data64().unwrap(), "filename:/name", "values are encoded, not passed through");
}
