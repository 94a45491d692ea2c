//! The orchestrator driven against a scripted transport: creation, the
//! chunked resume loop, termination, offset queries and capability discovery.

use std::cell::RefCell;
use std::collections::VecDeque;

use tus_rs::client::{Client, ClientOptions};
use tus_rs::errors::TusError;
use tus_rs::http::{HttpHandler, HttpRequest, HttpResponse, TusHttpMethod};
use tus_rs::upload_meta::{FileInfo, UploadMeta};

/// One request as the handler saw it.
struct Seen {
    method: TusHttpMethod,
    url: String,
    headers: Vec<(String, String)>,
    body: Option<Vec<u8>>,
}

/// A transport that replays a script of responses and records every request.
struct Scripted {
    responses: RefCell<VecDeque<Result<HttpResponse, TusError>>>,
    seen: RefCell<Vec<Seen>>,
}

impl Scripted {
    fn new(responses: Vec<Result<HttpResponse, TusError>>) -> Self {
        Scripted { responses: RefCell::new(responses.into()), seen: RefCell::new(Vec::new()) }
    }
}

impl HttpHandler for Scripted {
    fn handle_request(&self, req: HttpRequest) -> Result<HttpResponse, TusError> {
        self.seen.borrow_mut().push(Seen {
            method: req.method,
            url: req.url,
            headers: req.headers,
            body: req.body,
        });
        self.responses
            .borrow_mut()
            .pop_front()
            .unwrap_or(Err(TusError::RequestError("script exhausted".to_string())))
    }
}

fn resp(status_code: usize, headers: &[(&str, &str)]) -> Result<HttpResponse, TusError> {
    Ok(HttpResponse {
        status_code,
        headers: headers.iter().map(|(k, v)| (k.to_string(), v.to_string())).collect(),
        body: None,
    })
}

fn regular(len: usize) -> FileInfo {
    FileInfo { exists: true, is_dir: false, len }
}

fn header_val<'a>(headers: &'a [(String, String)], key: &str) -> Option<&'a str> {
    headers.iter().find(|(k, _)| k == key).map(|(_, v)| v.as_str())
}

const HOST: &str = "http://127.0.0.1:8080/files/";
const LOCATION: &str = "http://127.0.0.1:8080/files/abc";

#[test]
fn should_get_server_info() {
    let handler = Scripted::new(vec![resp(
        204,
        &[
            ("tus-resumable", "1.0.0"),
            ("tus-version", "1.0.0"),
            ("tus-extension", "creation,termination"),
        ],
    )]);
    let client = Client::new(handler, ClientOptions::default());
    let result = client.get_server_info(HOST);
    assert!(result.is_ok());
    let result = result.unwrap();
    assert!(!result.extensions.is_empty());
    let seen = client.handler.seen.borrow();
    assert_eq!(seen[0].method, TusHttpMethod::Options);
    assert_eq!(seen[0].url, HOST);
}

#[test]
fn server_info_needs_status_200_or_204() {
    let handler = Scripted::new(vec![resp(500, &[])]);
    let client = Client::new(handler, ClientOptions::default());
    let r = client.get_server_info(HOST);
    assert!(matches!(r, Err(TusError::UnexpectedStatusCode(500, _))));
}

#[test]
fn should_create_file() {
    let handler = Scripted::new(vec![resp(201, &[("location", LOCATION)])]);
    let client = Client::new(handler, ClientOptions::default());
    let result = client.create(
        "/tmp/upload.bin".to_string(),
        HOST.to_string(),
        &regular(128),
        None,
        None,
    );
    assert!(result.is_ok());
    let meta = result.unwrap();
    assert_eq!(meta.status.size, 128);
    assert_eq!(meta.status.bytes_uploaded, 0);
    assert_eq!(meta.remote_url, Some(LOCATION.to_string()));
    let seen = client.handler.seen.borrow();
    assert_eq!(seen[0].method, TusHttpMethod::Post);
    assert_eq!(seen[0].url, HOST);
    assert_eq!(header_val(&seen[0].headers, "upload-length"), Some("128"));
}

#[test]
fn should_create_and_upload_file() {
    let size = 1024 * 100;
    let data: Vec<u8> = (0..size).map(|i| (i % 251) as u8).collect();
    let handler = Scripted::new(vec![
        resp(201, &[("location", LOCATION)]),
        resp(204, &[("upload-offset", "102400")]),
    ]);
    let client = Client::new(handler, ClientOptions::default());
    let result = client.upload(
        "/tmp/upload.bin".to_string(),
        HOST.to_string(),
        &regular(size),
        &data,
        None,
        None,
    );
    assert!(result.is_ok());
    assert_eq!(result.unwrap().status.bytes_uploaded, size);
    let seen = client.handler.seen.borrow();
    assert_eq!(seen.len(), 2);
    assert_eq!(seen[1].method, TusHttpMethod::Patch);
    assert_eq!(seen[1].body.as_deref(), Some(&data[..]));
}

#[test]
fn should_create_and_terminate_file() {
    let handler = Scripted::new(vec![
        resp(201, &[("location", LOCATION)]),
        resp(204, &[]),
    ]);
    let client = Client::new(handler, ClientOptions::default());
    let result = client.create(
        "/tmp/upload.bin".to_string(),
        HOST.to_string(),
        &regular(1024 * 100),
        None,
        None,
    );
    assert!(result.is_ok());
    let meta = result.unwrap();
    let result = client.terminate(&meta);
    assert!(result.is_ok());
    let seen = client.handler.seen.borrow();
    assert_eq!(seen[1].method, TusHttpMethod::Delete);
    assert_eq!(seen[1].url, LOCATION);
}

#[test]
fn terminate_swallows_failure() {
    let handler = Scripted::new(vec![resp(500, &[])]);
    let client = Client::new(handler, ClientOptions::default());
    let meta = UploadMeta::new(
        "/tmp/upload.bin".to_string(),
        HOST.to_string(),
        &regular(8),
        None,
        None,
        None,
    )
    .unwrap()
    .with_remote_dest(LOCATION.to_string())
    .unwrap();
    assert!(client.terminate(&meta).is_ok(), "cleanup failure is deliberately swallowed");
}

#[test]
fn operations_after_terminate_report_not_found() {
    let handler = Scripted::new(vec![
        resp(201, &[("location", LOCATION)]),
        resp(204, &[]),
        resp(404, &[]),
    ]);
    let client = Client::new(handler, ClientOptions::default());
    let meta = client
        .create("/tmp/upload.bin".to_string(), HOST.to_string(), &regular(8), None, None)
        .unwrap();
    client.terminate(&meta).unwrap();
    let r = client.get_offset(&meta);
    assert!(matches!(r, Err(TusError::NotFoundError)));
}

#[test]
fn repeated_offset_queries_agree() {
    let handler = Scripted::new(vec![
        resp(200, &[("upload-offset", "64")]),
        resp(200, &[("upload-offset", "64")]),
    ]);
    let client = Client::new(handler, ClientOptions::default());
    let meta = UploadMeta::new(
        "/tmp/upload.bin".to_string(),
        HOST.to_string(),
        &regular(128),
        None,
        None,
        None,
    )
    .unwrap()
    .with_remote_dest(LOCATION.to_string())
    .unwrap();
    let first = client.get_offset(&meta).unwrap();
    let second = client.get_offset(&first).unwrap();
    assert_eq!(first.status.bytes_uploaded, 64);
    assert_eq!(second.status.bytes_uploaded, first.status.bytes_uploaded);
}

#[test]
fn chunked_upload_walks_the_file() {
    // a 128-byte file sent in 64-byte chunks
    let data: Vec<u8> = (0u8..128).collect();
    let handler = Scripted::new(vec![
        resp(201, &[("location", LOCATION)]),
        resp(204, &[("upload-offset", "64")]),
        resp(204, &[("upload-offset", "128")]),
    ]);
    let client = Client::new(handler, ClientOptions::new(64));
    let meta = client
        .create("/tmp/upload.bin".to_string(), HOST.to_string(), &regular(128), None, None)
        .unwrap();
    assert_eq!(meta.status.size, 128);
    assert_eq!(meta.status.bytes_uploaded, 0);
    let done = client.resume(&meta, &data).unwrap();
    assert_eq!(done.status.bytes_uploaded, 128);
    let seen = client.handler.seen.borrow();
    assert_eq!(seen.len(), 3);
    assert_eq!(seen[1].body.as_deref(), Some(&data[0..64]));
    assert_eq!(header_val(&seen[1].headers, "upload-offset"), Some("0"));
    assert_eq!(
        header_val(&seen[1].headers, "content-type"),
        Some("application/offset+octet-stream")
    );
    assert_eq!(seen[2].body.as_deref(), Some(&data[64..128]));
    assert_eq!(header_val(&seen[2].headers, "upload-offset"), Some("64"));
}

#[test]
fn create_without_location_header_fails() {
    let handler = Scripted::new(vec![resp(201, &[])]);
    let client = Client::new(handler, ClientOptions::default());
    let r = client.create(
        "/tmp/upload.bin".to_string(),
        HOST.to_string(),
        &regular(128),
        None,
        None,
    );
    assert!(matches!(r, Err(TusError::MissingHeader(name)) if name == "location"));
}

#[test]
fn conflicting_offset_aborts_resume() {
    let data: Vec<u8> = (0u8..128).collect();
    let handler = Scripted::new(vec![resp(409, &[])]);
    let client = Client::new(handler, ClientOptions::new(64));
    let meta = UploadMeta::new(
        "/tmp/upload.bin".to_string(),
        HOST.to_string(),
        &regular(128),
        None,
        None,
        None,
    )
    .unwrap()
    .with_remote_dest(LOCATION.to_string())
    .unwrap();
    let r = client.resume(&meta, &data);
    assert!(matches!(r, Err(TusError::WrongUploadOffsetError)));
    assert_eq!(meta.status.bytes_uploaded, 0, "the caller's snapshot is unchanged");
    assert_eq!(client.handler.seen.borrow().len(), 1, "the loop aborts immediately");
}

#[test]
fn resume_on_truncated_file_fails() {
    // the file shrank below the upload's size: reading yields no bytes
    let handler = Scripted::new(vec![resp(204, &[("upload-offset", "64")])]);
    let client = Client::new(handler, ClientOptions::new(64));
    let meta = UploadMeta::new(
        "/tmp/upload.bin".to_string(),
        HOST.to_string(),
        &regular(128),
        Some(64),
        None,
        None,
    )
    .unwrap()
    .with_remote_dest(LOCATION.to_string())
    .unwrap();
    let shrunk: Vec<u8> = (0u8..32).collect();
    let r = client.resume(&meta, &shrunk);
    assert!(matches!(r, Err(TusError::FileReadError(m)) if m == "Zero bytes read from file"));
}

#[test]
fn resume_with_zero_chunk_size_fails() {
    let data: Vec<u8> = (0u8..128).collect();
    let handler = Scripted::new(vec![]);
    let client = Client::new(handler, ClientOptions::new(0));
    let meta = UploadMeta::new(
        "/tmp/upload.bin".to_string(),
        HOST.to_string(),
        &regular(128),
        None,
        None,
        None,
    )
    .unwrap()
    .with_remote_dest(LOCATION.to_string())
    .unwrap();
    let r = client.resume(&meta, &data);
    assert!(matches!(r, Err(TusError::FileReadError(m)) if m == "Zero bytes read from file"));
    assert!(client.handler.seen.borrow().is_empty());
}

#[test]
fn offset_query_rejects_malformed_custom_header() {
    let handler = Scripted::new(vec![]);
    let client = Client::new(handler, ClientOptions::default());
    let mut meta = UploadMeta::new(
        "/tmp/upload.bin".to_string(),
        HOST.to_string(),
        &regular(8),
        None,
        None,
        None,
    )
    .unwrap()
    .with_remote_dest(LOCATION.to_string())
    .unwrap();
    meta.custom_headers = Some(vec![("x y".to_string(), "v".to_string())]);
    let r = client.get_offset(&meta);
    assert!(matches!(r, Err(TusError::InvalidHeader(n)) if n == "x y"));
    assert!(client.handler.seen.borrow().is_empty(), "nothing was sent");
}

#[test]
fn resume_of_finished_upload_sends_nothing() {
    let data: Vec<u8> = (0u8..8).collect();
    let handler = Scripted::new(vec![]);
    let client = Client::new(handler, ClientOptions::default());
    let meta = UploadMeta::new(
        "/tmp/upload.bin".to_string(),
        HOST.to_string(),
        &regular(8),
        Some(8),
        None,
        None,
    )
    .unwrap()
    .with_remote_dest(LOCATION.to_string())
    .unwrap();
    let done = client.resume(&meta, &data).unwrap();
    assert_eq!(done.status.bytes_uploaded, 8);
    assert!(client.handler.seen.borrow().is_empty());
}

#[test]
fn bad_request_carries_body_text() {
    let handler = Scripted::new(vec![Ok(HttpResponse {
        status_code: 400,
        headers: Vec::new(),
        body: Some("missing header".to_string()),
    })]);
    let client = Client::new(handler, ClientOptions::default());
    let r = client.create(
        "/tmp/upload.bin".to_string(),
        HOST.to_string(),
        &regular(8),
        None,
        None,
    );
    assert!(matches!(r, Err(TusError::BadRequest(b)) if b == "missing header"));
}

#[test]
fn payload_and_checksum_statuses_are_classified() {
    for (status, check) in [
        (413usize, TusError::FileTooLarge),
        (460usize, TusError::ChecksumMismatch),
    ] {
        let handler = Scripted::new(vec![resp(status, &[])]);
        let client = Client::new(handler, ClientOptions::default());
        let r = client.create(
            "/tmp/upload.bin".to_string(),
            HOST.to_string(),
            &regular(8),
            None,
            None,
        );
        match (r, check) {
            (Err(TusError::FileTooLarge), TusError::FileTooLarge) => {},
            (Err(TusError::ChecksumMismatch), TusError::ChecksumMismatch) => {},
            (other, _) => panic!("status {status} misclassified: {other:?}"),
        }
    }
}

#[test]
fn malformed_custom_headers_fail_before_sending() {
    let handler = Scripted::new(vec![resp(201, &[("location", LOCATION)])]);
    let client = Client::new(handler, ClientOptions::default());
    let bad_name = vec![("bad header".to_string(), "v".to_string())];
    let r = client.create(
        "/tmp/upload.bin".to_string(),
        HOST.to_string(),
        &regular(8),
        None,
        Some(bad_name),
    );
    assert!(matches!(r, Err(TusError::InvalidHeader(n)) if n == "bad header"));
    let bad_value = vec![("x-note".to_string(), "line\nbreak".to_string())];
    let r = client.create(
        "/tmp/upload.bin".to_string(),
        HOST.to_string(),
        &regular(8),
        None,
        Some(bad_value),
    );
    assert!(matches!(r, Err(TusError::InvalidHeaderValue(v)) if v == "line\nbreak"));
    assert!(client.handler.seen.borrow().is_empty(), "nothing was sent");
}

#[test]
fn transport_errors_surface_verbatim() {
    let handler = Scripted::new(vec![Err(TusError::RequestError("connection refused".to_string()))]);
    let client = Client::new(handler, ClientOptions::default());
    let r = client.create(
        "/tmp/upload.bin".to_string(),
        HOST.to_string(),
        &regular(8),
        None,
        None,
    );
    assert!(matches!(r, Err(TusError::RequestError(m)) if m == "connection refused"));
}

#[test]
fn get_offset_needs_remote_url() {
    let handler = Scripted::new(vec![]);
    let client = Client::new(handler, ClientOptions::default());
    let meta = UploadMeta::new(
        "/tmp/upload.bin".to_string(),
        HOST.to_string(),
        &regular(8),
        None,
        None,
        None,
    )
    .unwrap();
    let r = client.get_offset(&meta);
    assert!(matches!(r, Err(TusError::MissingUploadUrl)));
    assert!(client.handler.seen.borrow().is_empty());
}
