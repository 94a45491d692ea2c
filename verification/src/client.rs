//! The upload orchestrator: builds requests from operations and metadata,
//! drives them through an [`HttpHandler`], applies the status-code taxonomy,
//! and sequences create, the chunked resume loop, and terminate. The caller
//! owns file access and hands in the file's bytes and stat results; on any
//! failure it keeps the last good metadata snapshot to resume from later.

use vstd::prelude::*;
use vstd::slice::slice_to_vec;

use crate::codec::fits_meta_string;
use crate::errors::TusError;
use crate::headers::{all_values_fit, opt_str_pairs_view, opt_vec_string_view, spec_opt_parse,
    spec_opt_split, TusHeaders};
use crate::http::{HttpHandler, HttpRequest, TusHttpMethod};
use crate::info::{spec_parse_extensions, TusExtension, TusServerInfo};
use crate::ops::{classify_status, spec_op_headers, TusOp};
use crate::strutil::{opt_string_view, spec_lookup, spec_split};
use crate::upload_meta::{spec_basename, spec_initial_meta, spec_path_ok, url_parse, FileInfo,
    MetaView, UploadMeta};

verus! {

// ---------------------------------------------------------------------------
// Wire validity of request headers
// ---------------------------------------------------------------------------

/// A character allowed in a header name on the wire: the HTTP token set.
pub open spec fn is_token_char(c: char) -> bool {
    (65 <= c as int && c as int <= 90) || (97 <= c as int && c as int <= 122) || (48 <= c as int
        && c as int <= 57) || c == '!' || c == '#' || c == '$' || c == '%' || c == '&' || c == '\''
        || c == '*' || c == '+' || c == '-' || c == '.' || c == '^' || c == '_' || c == '`' || c
        == '|' || c == '~'
}

/// A character allowed in a header value on the wire: tab, or anything at or
/// above the space that is not delete.
pub open spec fn is_value_char(c: char) -> bool {
    c as int == 9 || (c as int >= 32 && c as int != 127)
}

/// A header name valid on the wire: nonempty, token characters only.
pub open spec fn valid_header_name(s: Seq<char>) -> bool {
    s.len() > 0 && forall|i: int| 0 <= i < s.len() ==> is_token_char(#[trigger] s[i])
}

/// A header value valid on the wire.
pub open spec fn valid_header_value(s: Seq<char>) -> bool {
    forall|i: int| 0 <= i < s.len() ==> is_value_char(#[trigger] s[i])
}

/// Every header of the list is valid on the wire.
pub open spec fn spec_headers_wire_valid(hs: Seq<(Seq<char>, Seq<char>)>) -> bool {
    forall|i: int| 0 <= i < hs.len() ==> valid_header_name(#[trigger] hs[i].0)
        && valid_header_value(hs[i].1)
}

fn token_char(c: char) -> (r: bool)
    ensures
        r == is_token_char(c),
{
    let u = c as u32;
    (65 <= u && u <= 90) || (97 <= u && u <= 122) || (48 <= u && u <= 57) || c == '!' || c == '#'
        || c == '$' || c == '%' || c == '&' || c == '\'' || c == '*' || c == '+' || c == '-' || c
        == '.' || c == '^' || c == '_' || c == '`' || c == '|' || c == '~'
}

fn value_char(c: char) -> (r: bool)
    ensures
        r == is_value_char(c),
{
    let u = c as u32;
    u == 9 || (u >= 32 && u != 127)
}

fn check_header_name(s: &str) -> (r: bool)
    ensures
        r == valid_header_name(s@),
{
    let n = s.unicode_len();
    if n == 0 {
        return false;
    }
    let mut i: usize = 0;
    while i < n
        invariant
            0 <= i <= n,
            n == s@.len(),
            n > 0,
            forall|j: int| 0 <= j < i ==> is_token_char(#[trigger] s@[j]),
        decreases n - i,
    {
        if !token_char(s.get_char(i)) {
            return false;
        }
        i = i + 1;
    }
    true
}

fn check_header_value(s: &str) -> (r: bool)
    ensures
        r == valid_header_value(s@),
{
    let n = s.unicode_len();
    let mut i: usize = 0;
    while i < n
        invariant
            0 <= i <= n,
            n == s@.len(),
            forall|j: int| 0 <= j < i ==> is_value_char(#[trigger] s@[j]),
        decreases n - i,
    {
        if !value_char(s.get_char(i)) {
            return false;
        }
        i = i + 1;
    }
    true
}

/// Check every request header before anything is sent: a malformed name or
/// value is an encoding error, reported with the offending text.
pub fn validate_request_headers(h: &Vec<(String, String)>) -> (r: Result<(), TusError>)
    ensures
        r is Ok <==> spec_headers_wire_valid(h.deep_view()),
        r matches Err(e) ==> (e is InvalidHeader || e is InvalidHeaderValue),
        r matches Err(TusError::InvalidHeader(n)) ==> !valid_header_name(n@),
        r matches Err(TusError::InvalidHeaderValue(v)) ==> !valid_header_value(v@),
{
    let n = h.len();
    let mut i: usize = 0;
    while i < n
        invariant
            0 <= i <= n,
            n == h@.len(),
            forall|j: int| 0 <= j < i ==> valid_header_name((#[trigger] h@[j]).0@)
                && valid_header_value(h@[j].1@),
        decreases n - i,
    {
        proof {
            assert(h.deep_view()[i as int] == (h@[i as int].0@, h@[i as int].1@));
        }
        if !check_header_name(h[i].0.as_str()) {
            proof {
                assert(!valid_header_name(h.deep_view()[i as int].0));
                assert(!spec_headers_wire_valid(h.deep_view()));
            }
            return Err(TusError::InvalidHeader(h[i].0.clone()));
        }
        if !check_header_value(h[i].1.as_str()) {
            proof {
                assert(valid_header_name(h.deep_view()[i as int].0));
                assert(!valid_header_value(h.deep_view()[i as int].1));
                assert(!spec_headers_wire_valid(h.deep_view()));
            }
            return Err(TusError::InvalidHeaderValue(h[i].1.clone()));
        }
        i = i + 1;
    }
    proof {
        assert forall|j: int|
            0 <= j < h.deep_view().len() implies valid_header_name(
            (#[trigger] h.deep_view()[j]).0,
        ) && valid_header_value(h.deep_view()[j].1) by {
            assert(h.deep_view()[j] == (h@[j].0@, h@[j].1@));
            assert(valid_header_name(h@[j].0@) && valid_header_value(h@[j].1@));
        }
        assert(spec_headers_wire_valid(h.deep_view()));
    }
    Ok(())
}

// ---------------------------------------------------------------------------
// The client
// ---------------------------------------------------------------------------

/// Configuration of a client.
#[derive(Debug, Clone, Copy, PartialEq, Eq, Structural)]
pub struct ClientOptions {
    /// Chunk size used when uploading large files, in bytes.
    pub chunksize: usize,
}

impl ClientOptions {
    /// Options with the given chunk size.
    pub fn new(chunksize: usize) -> (r: Self)
        ensures
            r.chunksize == chunksize,
    {
        Self { chunksize }
    }

    /// The default options: a 6 MiB chunk size.
    pub fn default() -> (r: Self)
        ensures
            r.chunksize == 6 * 1024 * 1024,
    {
        Self { chunksize: 6 * 1024 * 1024 }
    }
}

/// What one completed operation may change on a metadata value: everything
/// else is carried over unchanged.
pub open spec fn meta_identity_eq(v: MetaView, w: MetaView) -> bool {
    &&& w.size == v.size
    &&& w.file_path == v.file_path
    &&& w.upload_host == v.upload_host
    &&& w.version == v.version
    &&& w.extra_meta == v.extra_meta
    &&& w.mime_type == v.mime_type
    &&& w.custom_headers == v.custom_headers
    &&& w.error_count == v.error_count
}

/// What each operation guarantees of the metadata it returns: identity fields
/// unchanged, progress within bounds, and the operation's own effect —
/// creation populates the remote URL, an offset query only moves the
/// progress, an upload never moves it backwards, termination changes nothing.
pub open spec fn spec_op_post(op: TusOp, v: MetaView, w: MetaView) -> bool {
    &&& meta_identity_eq(v, w)
    &&& w.bytes_uploaded <= w.size
    &&& match op {
        TusOp::Create => w.remote_url is Some && w.bytes_uploaded == v.bytes_uploaded,
        TusOp::GetOffset => w.remote_url == v.remote_url,
        TusOp::Upload => w.remote_url == v.remote_url && w.bytes_uploaded >= v.bytes_uploaded,
        TusOp::Terminate => w == v,
    }
}

/// What a capability record holds of the raw discovery response headers.
pub open spec fn spec_server_info_post(
    hs: Seq<(Seq<char>, Seq<char>)>,
    info: TusServerInfo,
) -> bool {
    &&& opt_string_view(info.version) == spec_lookup(hs, "tus-resumable"@)
    &&& info.max_size == spec_opt_parse(spec_lookup(hs, "tus-max-size"@))
    &&& info.extensions@ == (match spec_lookup(hs, "tus-extension"@) {
        Some(s) => spec_parse_extensions(spec_split(s, ',')),
        None => Seq::<TusExtension>::empty(),
    })
    &&& info.supported_versions.deep_view() == (match spec_lookup(hs, "tus-version"@) {
        Some(s) => spec_split(s, ','),
        None => Seq::<Seq<char>>::empty(),
    })
    &&& opt_vec_string_view(info.supported_checksum_algorithms) == spec_opt_split(
        spec_lookup(hs, "tus-checksum-algorithm"@),
    )
}

/// Decode a capability-discovery response: status 200 or 204 yields the
/// server's capability record, anything else the unexpected-status error with
/// the code and body text.
pub fn server_info_from_response(
    status_code: usize,
    headers: &Vec<(String, String)>,
    body: String,
) -> (r: Result<TusServerInfo, TusError>)
    ensures
        (status_code == 200 || status_code == 204) ==> (r matches Ok(info)
            && spec_server_info_post(headers.deep_view(), info)),
        !(status_code == 200 || status_code == 204) ==> (r matches Err(
            TusError::UnexpectedStatusCode(c, b),
        ) && c == status_code && b@ == body@),
{
    if status_code == 200 || status_code == 204 {
        let th = TusHeaders::from_pairs(headers);
        Ok(TusServerInfo::from_headers(th))
    } else {
        Err(TusError::UnexpectedStatusCode(status_code, body))
    }
}

/// The bytes one upload request carries: exactly `take_n` bytes of the file,
/// starting at `pos`.
fn chunk_of(file_data: &[u8], pos: usize, take_n: usize) -> (r: Vec<u8>)
    requires
        pos + take_n <= file_data@.len(),
    ensures
        r@ == file_data@.subrange(pos as int, pos as int + take_n as int),
{
    let flen = file_data.len();
    let mut buf: Vec<u8> = Vec::new();
    let mut k: usize = 0;
    proof {
        assert(buf@ =~= file_data@.subrange(pos as int, pos as int));
    }
    while k < take_n
        invariant
            0 <= k <= take_n,
            pos + take_n <= flen,
            flen == file_data@.len(),
            buf@ == file_data@.subrange(pos as int, pos as int + k as int),
        decreases take_n - k,
    {
        let ghost pre = buf@;
        buf.push(file_data[pos + k]);
        proof {
            assert(pre.push(file_data@[pos as int + k as int]) =~= file_data@.subrange(
                pos as int,
                pos as int + k as int + 1,
            ));
        }
        k = k + 1;
    }
    buf
}

/// A TUS client: an HTTP handler to execute requests, and options.
pub struct Client<H> {
    /// The transport collaborator that executes requests.
    pub handler: H,
    /// The client's configuration.
    pub options: ClientOptions,
}

impl<H: HttpHandler> Client<H> {
    /// A new TUS client over the given transport.
    pub fn new(handler: H, options: ClientOptions) -> (r: Self)
        ensures
            r.options == options,
    {
        Self { handler, options }
    }

    /// Run one protocol operation: build the operation's request, validate
    /// its headers, execute it, classify the status, and decode the response
    /// into the next metadata value. Whatever the transport returns, a
    /// success obeys the operation's effect on the metadata.
    pub fn run(&self, op: TusOp, metadata: &UploadMeta, body: Option<&[u8]>) -> (r: Result<
        UploadMeta,
        TusError,
    >)
        requires
            metadata.wf(),
            op == TusOp::Create ==> metadata@.remote_url is None,
        ensures
            r matches Ok(m) ==> m.wf() && spec_op_post(op, metadata@, m@),
            op != TusOp::Create && metadata@.remote_url is None ==> r matches Err(
                TusError::MissingUploadUrl,
            ),
            ((op == TusOp::Create || metadata@.remote_url is Some) && !spec_headers_wire_valid(
                spec_op_headers(op, metadata@),
            )) ==> (r matches Err(e) && (e is InvalidHeader || e is InvalidHeaderValue)),
    {
        let headers = match op.headers(metadata) {
            Ok(h) => h,
            Err(e) => {
                return Err(e);
            },
        };
        let url = match op.url_for_meta(metadata) {
            Ok(u) => u,
            Err(e) => {
                return Err(e);
            },
        };
        if let Err(e) = validate_request_headers(&headers) {
            return Err(e);
        }
        let body_vec = match body {
            Some(b) => Some(slice_to_vec(b)),
            None => None,
        };
        let request = HttpRequest { method: op.method(), headers, url, body: body_vec };
        let response = match self.handler.handle_request(request) {
            Ok(resp) => resp,
            Err(e) => {
                return Err(e);
            },
        };
        let body_text = match response.body {
            Some(t) => t,
            None => String::new(),
        };
        if let Err(e) = classify_status(response.status_code, body_text) {
            return Err(e);
        }
        op.handle_response(&response.headers, metadata)
    }

    /// Discover a server's capabilities: issue an `OPTIONS` probe and decode
    /// the response through [`server_info_from_response`], which fixes the
    /// decode for every status, header set and body; accepts status 200 or
    /// 204. Whatever the transport returns, a success is the decode of some
    /// response's headers.
    pub fn get_server_info(&self, url: &str) -> (r: Result<TusServerInfo, TusError>)
        ensures
            r matches Ok(info) ==> exists|hs: Seq<(Seq<char>, Seq<char>)>|
                spec_server_info_post(hs, info),
    {
        let request = HttpRequest {
            method: TusHttpMethod::Options,
            headers: Vec::new(),
            url: String::from_str(url),
            body: None,
        };
        let response = match self.handler.handle_request(request) {
            Ok(resp) => resp,
            Err(e) => {
                return Err(e);
            },
        };
        let body_text = match response.body {
            Some(t) => t,
            None => String::new(),
        };
        let res = server_info_from_response(response.status_code, &response.headers, body_text);
        proof {
            if res is Ok {
                assert(spec_server_info_post(response.headers.deep_view(), res->Ok_0));
            }
        }
        res
    }

    /// Create an upload resource on the server for a local file: validate the
    /// path against what the filesystem reported, build the initial metadata
    /// with no progress and no remote URL, and run the creation; a success
    /// carries the server-assigned remote URL.
    pub fn create(
        &self,
        file_path: String,
        host: String,
        info: &FileInfo,
        metadata: Option<Vec<(String, String)>>,
        custom_headers: Option<Vec<(String, String)>>,
    ) -> (r: Result<UploadMeta, TusError>)
        requires
            fits_meta_string(file_path@),
            metadata matches Some(xs) ==> all_values_fit(xs.deep_view()),
        ensures
            r matches Ok(m) ==> m.wf() && m@.remote_url is Some && m@.size == info.len
                && m@.bytes_uploaded == 0 && m@.file_path == file_path@ && m@.version == "1"@
                && m@.mime_type is None && m@.error_count == 0 && m@.upload_host == url_parse(
                host@,
            )->Some_0,
            !spec_path_ok(file_path@, *info) ==> r is Err,
            !info.exists ==> (r matches Err(TusError::FileReadError(m)) && m@
                == "File not found"@),
            info.exists && info.is_dir ==> (r matches Err(TusError::FileReadError(m)) && m@
                == "Cannot be a directory"@),
            info.exists && !info.is_dir && spec_basename(file_path@).len() == 0 ==> r matches Err(
                TusError::EmptyFilename,
            ),
            url_parse(host@) is None ==> r is Err,
            spec_path_ok(file_path@, *info) && url_parse(host@) is None ==> (r matches Err(
                TusError::StringParseError(m),
            ) && m@ == "Malformed Url"@),
            (spec_path_ok(file_path@, *info) && url_parse(host@) is Some
                && !spec_headers_wire_valid(
                spec_op_headers(
                    TusOp::Create,
                    spec_initial_meta(
                        file_path@,
                        url_parse(host@)->Some_0,
                        info.len,
                        0usize,
                        opt_str_pairs_view(metadata),
                        opt_str_pairs_view(custom_headers),
                    ),
                ),
            )) ==> (r matches Err(e) && (e is InvalidHeader || e is InvalidHeaderValue)),
    {
        let meta = match UploadMeta::new(file_path, host, info, None, metadata, custom_headers) {
            Ok(m) => m,
            Err(e) => {
                return Err(e);
            },
        };
        self.run(TusOp::Create, &meta, None)
    }

    /// Ask the server for the current offset of this upload and adopt it.
    pub fn get_offset(&self, meta: &UploadMeta) -> (r: Result<UploadMeta, TusError>)
        requires
            meta.wf(),
        ensures
            r matches Ok(m) ==> m.wf() && spec_op_post(TusOp::GetOffset, meta@, m@),
            meta@.remote_url is None ==> r matches Err(TusError::MissingUploadUrl),
            (meta@.remote_url is Some && !spec_headers_wire_valid(
                spec_op_headers(TusOp::GetOffset, meta@),
            )) ==> (r matches Err(e) && (e is InvalidHeader || e is InvalidHeaderValue)),
    {
        self.run(TusOp::GetOffset, meta, None)
    }

    /// Resume an upload: send the file's bytes from the current progress in
    /// chunks of the configured size, one upload at a time, adopting the
    /// server-reported offset after each. An already-complete upload returns
    /// its metadata unchanged without any request; reading no bytes while the
    /// upload is unfinished is a truncated-read failure. The loop provably
    /// terminates, and a success means every byte is acknowledged; on any
    /// error the caller keeps its metadata snapshot to resume from later.
    pub fn resume(&self, meta: &UploadMeta, file_data: &[u8]) -> (r: Result<UploadMeta, TusError>)
        requires
            meta.wf(),
        ensures
            r matches Ok(m) ==> m.wf() && meta_identity_eq(meta@, m@) && m@.remote_url
                == meta@.remote_url && m@.bytes_uploaded >= meta@.bytes_uploaded
                && m@.bytes_uploaded == m@.size,
            meta@.bytes_uploaded == meta@.size ==> (r matches Ok(m) && m@ == meta@),
            (meta@.bytes_uploaded < meta@.size && (file_data@.len() <= meta@.bytes_uploaded
                || self.options.chunksize == 0)) ==> (r matches Err(TusError::FileReadError(msg))
                && msg@ == "Zero bytes read from file"@),
    {
        let mut m = meta.duplicate();
        let mut pos: usize = m.status.bytes_uploaded;
        if pos > file_data.len() {
            pos = file_data.len();
        }
        let chunksize = self.options.chunksize;
        while m.status.bytes_uploaded < m.status.size
            invariant
                m.wf(),
                meta_identity_eq(meta@, m@),
                m@.remote_url == meta@.remote_url,
                m@.bytes_uploaded >= meta@.bytes_uploaded,
                pos <= file_data@.len(),
                chunksize == self.options.chunksize,
                meta@.bytes_uploaded == meta@.size ==> m@ == meta@,
                (meta@.bytes_uploaded < meta@.size && file_data@.len() <= meta@.bytes_uploaded)
                    ==> pos >= file_data@.len(),
                (meta@.bytes_uploaded < meta@.size && (file_data@.len() <= meta@.bytes_uploaded
                    || chunksize == 0)) ==> m@.bytes_uploaded == meta@.bytes_uploaded,
            decreases file_data@.len() - pos,
        {
            let avail = file_data.len() - pos;
            let take_n = if chunksize < avail {
                chunksize
            } else {
                avail
            };
            if take_n == 0 {
                return Err(TusError::FileReadError(String::from_str(
                    "Zero bytes read from file",
                )));
            }
            let buf = chunk_of(file_data, pos, take_n);
            let next = match self.run(TusOp::Upload, &m, Some(buf.as_slice())) {
                Ok(x) => x,
                Err(e) => {
                    return Err(e);
                },
            };
            pos = pos + take_n;
            m = next;
        }
        Ok(m)
    }

    /// Create an upload resource for a local file and send all its bytes, as
    /// one convenience call.
    pub fn upload(
        &self,
        file_path: String,
        host: String,
        info: &FileInfo,
        file_data: &[u8],
        metadata: Option<Vec<(String, String)>>,
        custom_headers: Option<Vec<(String, String)>>,
    ) -> (r: Result<UploadMeta, TusError>)
        requires
            fits_meta_string(file_path@),
            metadata matches Some(xs) ==> all_values_fit(xs.deep_view()),
        ensures
            r matches Ok(m) ==> m.wf() && m@.remote_url is Some && m@.size == info.len
                && m@.bytes_uploaded == m@.size && m@.file_path == file_path@,
            !spec_path_ok(file_path@, *info) ==> r is Err,
            url_parse(host@) is None ==> r is Err,
            (spec_path_ok(file_path@, *info) && url_parse(host@) is Some
                && !spec_headers_wire_valid(
                spec_op_headers(
                    TusOp::Create,
                    spec_initial_meta(
                        file_path@,
                        url_parse(host@)->Some_0,
                        info.len,
                        0usize,
                        opt_str_pairs_view(metadata),
                        opt_str_pairs_view(custom_headers),
                    ),
                ),
            )) ==> (r matches Err(e) && (e is InvalidHeader || e is InvalidHeaderValue)),
    {
        let meta = match self.create(file_path, host, info, metadata, custom_headers) {
            Ok(m) => m,
            Err(e) => {
                return Err(e);
            },
        };
        self.resume(&meta, file_data)
    }

    /// Terminate an upload and delete the resource on the server. Best-effort
    /// cleanup by design: this is the one call whose failure is deliberately
    /// swallowed, so it always reports success to the caller.
    pub fn terminate(&self, meta: &UploadMeta) -> (r: Result<(), TusError>)
        requires
            meta.wf(),
        ensures
            r is Ok,
    {
        let _ = self.run(TusOp::Terminate, meta, None);
        Ok(())
    }
}

} // verus!
