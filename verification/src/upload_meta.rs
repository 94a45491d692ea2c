//! The upload metadata model: one upload attempt's identity, progress and
//! configuration, as an immutable record. Every mutation yields a new value,
//! so stale snapshots stay valid for inspection or a later resume.

use vstd::prelude::*;

use crate::codec::{encode_pairs, fits_meta_string, fits_meta_values, spec_encode_pairs};
use crate::errors::TusError;
use crate::headers::{all_values_fit, lemma_fold_values_fit, lemma_insert_values_fit,
    opt_str_pairs_view, fold_insert, headers_insert, spec_fold_insert, spec_headers_insert};
use crate::strutil::{opt_string_view, str_eq};

verus! {

/// Status of one upload: total size and the server-acknowledged progress.
#[derive(Debug, Clone, Copy, PartialEq, Eq, Structural)]
pub struct UploadStatus {
    /// Bytes the server has durably received.
    pub bytes_uploaded: usize,
    /// Total size of the file in bytes, fixed at creation.
    pub size: usize,
}

impl UploadStatus {
    /// Progress never exceeds the size.
    pub open spec fn wf(self) -> bool {
        self.bytes_uploaded <= self.size
    }

    /// A status with the given size; progress starts at the given point, or
    /// at zero.
    pub fn new(size: usize, bytes_uploaded: Option<usize>) -> (r: Self)
        requires
            bytes_uploaded matches Some(b) ==> b <= size,
        ensures
            r.size == size,
            r.bytes_uploaded == (match bytes_uploaded {
                Some(b) => b,
                None => 0usize,
            }),
            r.wf(),
    {
        UploadStatus {
            size,
            bytes_uploaded: match bytes_uploaded {
                Some(b) => b,
                None => 0,
            },
        }
    }
}

/// What the filesystem reports of a local path: the caller stats the file and
/// hands the result in, so the validation rules here stay checkable.
#[derive(Debug, Clone, Copy)]
pub struct FileInfo {
    /// The path exists.
    pub exists: bool,
    /// The path names a directory.
    pub is_dir: bool,
    /// The file's length in bytes.
    pub len: usize,
}

// ---------------------------------------------------------------------------
// URLs
// ---------------------------------------------------------------------------

/// What `url::Url::parse` yields: the parsed URL's serialization, or absent
/// when the input is not a valid absolute URL.
pub uninterp spec fn url_parse(s: Seq<char>) -> Option<Seq<char>>;

/// Relies on url's `Url::parse` and `Url::as_str`: parsing fails or yields a
/// URL value whose serialization is determined by the input alone.
#[verifier::external_body]
pub(crate) fn parse_url(s: &str) -> (r: Option<String>)
    ensures
        r matches Some(u) ==> url_parse(s@) == Some(u@),
        r is None ==> url_parse(s@) is None,
{
    match url::Url::parse(s) {
        Ok(u) => Some(u.as_str().to_owned()),
        Err(_) => None,
    }
}

// ---------------------------------------------------------------------------
// Paths
// ---------------------------------------------------------------------------

/// The final component of a path: what follows the last `/`, empty when the
/// path ends in `/` or is empty.
pub open spec fn spec_basename(s: Seq<char>) -> Seq<char>
    decreases s.len(),
{
    if s.len() == 0 {
        s
    } else if s.last() == '/' {
        Seq::empty()
    } else {
        spec_basename(s.drop_last()).push(s.last())
    }
}

proof fn lemma_basename_after_last_slash(s: Seq<char>, k: int)
    requires
        -1 <= k < s.len(),
        forall|j: int| k < j < s.len() ==> s[j] != '/',
        k >= 0 ==> s[k] == '/',
    ensures
        spec_basename(s) == s.skip(k + 1),
    decreases s.len(),
{
    if s.len() == 0 {
        assert(s.skip(0) =~= s);
    } else if k == s.len() - 1 {
        assert(spec_basename(s) =~= s.skip(k + 1));
    } else {
        assert(s.last() != '/');
        lemma_basename_after_last_slash(s.drop_last(), k);
        assert(s.drop_last().skip(k + 1).push(s.last()) =~= s.skip(k + 1));
    }
}

/// The final component of a path.
pub fn basename_of(s: &str) -> (r: String)
    ensures
        r@ == spec_basename(s@),
{
    let n = s.unicode_len();
    let mut i: usize = n;
    let mut found = false;
    while i > 0 && !found
        invariant
            0 <= i <= n,
            n == s@.len(),
            forall|j: int| i <= j < n ==> s@[j] != '/',
            found ==> i >= 1 && s@[i as int - 1] == '/',
        decreases i + (if found { 0int } else { 1int }),
    {
        if s.get_char(i - 1) == '/' {
            found = true;
        } else {
            i = i - 1;
        }
    }
    proof {
        if found {
            lemma_basename_after_last_slash(s@, i as int - 1);
        } else {
            lemma_basename_after_last_slash(s@, -1);
        }
        assert(s@.skip(i as int) =~= s@.subrange(i as int, n as int));
    }
    String::from_str(s.substring_char(i, n))
}

/// The path names an existing regular file with a usable final component.
pub open spec fn spec_path_ok(path: Seq<char>, info: FileInfo) -> bool {
    &&& info.exists
    &&& !info.is_dir
    &&& spec_basename(path).len() > 0
    &&& spec_basename(path) != "/"@
}

/// Validate the local path of an upload: the file must exist, not be a
/// directory, and have a nonempty final component that is not literally `/`.
pub fn validate_path(file_path: &str, info: &FileInfo) -> (r: Result<(), TusError>)
    ensures
        r is Ok <==> spec_path_ok(file_path@, *info),
        !info.exists ==> (r matches Err(TusError::FileReadError(m)) && m@ == "File not found"@),
        info.exists && info.is_dir ==> (r matches Err(TusError::FileReadError(m)) && m@
            == "Cannot be a directory"@),
        info.exists && !info.is_dir && spec_basename(file_path@).len() == 0 ==> r matches Err(
            TusError::EmptyFilename,
        ),
        info.exists && !info.is_dir && spec_basename(file_path@).len() > 0 && spec_basename(
            file_path@,
        ) == "/"@ ==> (r matches Err(TusError::InvalidFilename(m)) && m@ == spec_basename(
            file_path@,
        )),
{
    if !info.exists {
        return Err(TusError::FileReadError(String::from_str("File not found")));
    }
    if info.is_dir {
        return Err(TusError::FileReadError(String::from_str("Cannot be a directory")));
    }
    let name = basename_of(file_path);
    if name.as_str().unicode_len() == 0 {
        return Err(TusError::EmptyFilename);
    }
    if str_eq(name.as_str(), "/") {
        return Err(TusError::InvalidFilename(name));
    }
    Ok(())
}

// ---------------------------------------------------------------------------
// The metadata record
// ---------------------------------------------------------------------------

/// The mathematical content of an [`UploadMeta`] value.
pub ghost struct MetaView {
    /// The upload host the resource is created on.
    pub upload_host: Seq<char>,
    /// The local path of the file.
    pub file_path: Seq<char>,
    /// The remote resource URL, present once creation succeeded.
    pub remote_url: Option<Seq<char>>,
    /// Total size of the file in bytes.
    pub size: usize,
    /// Bytes the server has durably received.
    pub bytes_uploaded: usize,
    /// The protocol version string associated with this upload.
    pub version: Seq<char>,
    /// Extra metadata entries for the upload-metadata header.
    pub extra_meta: Option<Seq<(Seq<char>, Seq<char>)>>,
    /// The file's media type, when known.
    pub mime_type: Option<Seq<char>>,
    /// Caller-supplied headers, merged into every request.
    pub custom_headers: Option<Seq<(Seq<char>, Seq<char>)>>,
    /// How many operations on this upload have failed.
    pub error_count: usize,
}

impl MetaView {
    /// Progress bounded by size, and every encodable string small enough for
    /// the metadata codec.
    pub open spec fn wf(self) -> bool {
        &&& self.bytes_uploaded <= self.size
        &&& fits_meta_string(self.file_path)
        &&& (self.mime_type matches Some(m) ==> fits_meta_string(m))
        &&& (self.extra_meta matches Some(xs) ==> all_values_fit(xs))
    }
}

/// One upload attempt: identity, progress and configuration. An immutable
/// record; every mutation yields a new value.
#[derive(Debug, Clone)]
pub struct UploadMeta {
    /// The upload host the resource is created on, e.g. a server's base URL.
    pub upload_host: String,
    /// Local path to the file.
    pub file_path: String,
    /// Where the upload resource lives on the server; set by a successful
    /// creation and immutable afterwards.
    pub remote_url: Option<String>,
    /// Status of the upload.
    pub status: UploadStatus,
    /// The protocol version associated with this upload.
    pub version: String,
    /// Extra metadata to include in the upload-metadata header.
    pub extra_meta: Option<Vec<(String, String)>>,
    /// The file's media type, when known.
    pub mime_type: Option<String>,
    /// Custom headers to add to every request.
    pub custom_headers: Option<Vec<(String, String)>>,
    /// Number of times an operation on this upload failed.
    pub error_count: usize,
}

impl View for UploadMeta {
    type V = MetaView;

    open spec fn view(&self) -> MetaView {
        MetaView {
            upload_host: self.upload_host@,
            file_path: self.file_path@,
            remote_url: opt_string_view(self.remote_url),
            size: self.status.size,
            bytes_uploaded: self.status.bytes_uploaded,
            version: self.version@,
            extra_meta: opt_str_pairs_view(self.extra_meta),
            mime_type: opt_string_view(self.mime_type),
            custom_headers: opt_str_pairs_view(self.custom_headers),
            error_count: self.error_count,
        }
    }
}

fn clone_str_pairs(v: &Vec<(String, String)>) -> (r: Vec<(String, String)>)
    ensures
        r.deep_view() == v.deep_view(),
{
    let n = v.len();
    let mut out: Vec<(String, String)> = Vec::new();
    let mut i: usize = 0;
    proof {
        assert(out.deep_view() =~= v.deep_view().take(0));
    }
    while i < n
        invariant
            0 <= i <= n,
            n == v@.len(),
            out.deep_view() == v.deep_view().take(i as int),
        decreases n - i,
    {
        let ghost pre = out.deep_view();
        out.push((v[i].0.clone(), v[i].1.clone()));
        proof {
            assert(v.deep_view()[i as int] == (v@[i as int].0@, v@[i as int].1@));
            assert(out.deep_view() =~= pre.push(v.deep_view()[i as int]));
            assert(pre.push(v.deep_view()[i as int]) =~= v.deep_view().take(i as int + 1));
        }
        i = i + 1;
    }
    proof {
        assert(v.deep_view().take(n as int) =~= v.deep_view());
    }
    out
}

fn clone_opt_pairs(v: &Option<Vec<(String, String)>>) -> (r: Option<Vec<(String, String)>>)
    ensures
        opt_str_pairs_view(r) == opt_str_pairs_view(*v),
{
    match v {
        Some(xs) => Some(clone_str_pairs(xs)),
        None => None,
    }
}

fn clone_opt_string(v: &Option<String>) -> (r: Option<String>)
    ensures
        opt_string_view(r) == opt_string_view(*v),
{
    match v {
        Some(s) => Some(s.clone()),
        None => None,
    }
}

/// What the upload-metadata header carries for this upload: the filename, the
/// media type when known, and the extra entries, merged in that order with
/// later keys replacing earlier ones.
pub open spec fn spec_data(v: MetaView) -> Seq<(Seq<char>, Seq<char>)> {
    let base = seq![("filename"@, v.file_path)];
    let with_mime = match v.mime_type {
        Some(m) => spec_headers_insert(base, "filetype"@, m),
        None => base,
    };
    match v.extra_meta {
        Some(xs) => spec_fold_insert(with_mime, xs),
        None => with_mime,
    }
}

/// The encoded upload-metadata header value for this upload.
pub open spec fn spec_data64(v: MetaView) -> Seq<char> {
    spec_encode_pairs(
        spec_data(v).map(
            |i: int, p: (Seq<char>, Seq<char>)| (p.0, vstd::utf8::encode_utf8(p.1)),
        ),
    )
}

/// The view a freshly built metadata record has: no remote URL, no media
/// type, version `1`, no failures counted.
pub open spec fn spec_initial_meta(
    file_path: Seq<char>,
    host: Seq<char>,
    size: usize,
    bytes_uploaded: usize,
    extra_meta: Option<Seq<(Seq<char>, Seq<char>)>>,
    custom_headers: Option<Seq<(Seq<char>, Seq<char>)>>,
) -> MetaView {
    MetaView {
        upload_host: host,
        file_path,
        remote_url: None,
        size,
        bytes_uploaded,
        version: "1"@,
        extra_meta,
        mime_type: None,
        custom_headers,
        error_count: 0usize,
    }
}

impl UploadMeta {
    /// The record's invariant.
    pub open spec fn wf(self) -> bool {
        self@.wf()
    }

    /// A fresh metadata record for one upload: the path is validated against
    /// what the filesystem reported, progress must not exceed the file's
    /// length, and the host must parse as a URL (it is stored in its parsed
    /// serialization). The remote URL starts absent.
    pub fn new(
        file_path: String,
        upload_host: String,
        info: &FileInfo,
        bytes_uploaded: Option<usize>,
        extra_meta: Option<Vec<(String, String)>>,
        custom_headers: Option<Vec<(String, String)>>,
    ) -> (r: Result<UploadMeta, TusError>)
        requires
            fits_meta_string(file_path@),
            (extra_meta matches Some(xs) ==> all_values_fit(xs.deep_view())),
        ensures
            r is Ok <==> spec_path_ok(file_path@, *info) && (bytes_uploaded matches Some(b) ==> b
                <= info.len) && url_parse(upload_host@) is Some,
            r matches Ok(m) ==> m@ == spec_initial_meta(
                file_path@,
                url_parse(upload_host@)->Some_0,
                info.len,
                match bytes_uploaded {
                    Some(b) => b,
                    None => 0usize,
                },
                opt_str_pairs_view(extra_meta),
                opt_str_pairs_view(custom_headers),
            ),
            r matches Ok(m) ==> m.wf(),
            !spec_path_ok(file_path@, *info) ==> (r matches Err(e) && !(e is UnequalSizeError)
                && !(e is StringParseError)),
            !info.exists ==> (r matches Err(TusError::FileReadError(m)) && m@
                == "File not found"@),
            info.exists && info.is_dir ==> (r matches Err(TusError::FileReadError(m)) && m@
                == "Cannot be a directory"@),
            info.exists && !info.is_dir && spec_basename(file_path@).len() == 0 ==> r matches Err(
                TusError::EmptyFilename,
            ),
            (bytes_uploaded matches Some(b) && spec_path_ok(file_path@, *info) && b > info.len)
                ==> r matches Err(TusError::UnequalSizeError),
            (spec_path_ok(file_path@, *info) && (bytes_uploaded matches Some(b) ==> b <= info.len)
                && url_parse(upload_host@) is None) ==> (r matches Err(
                TusError::StringParseError(m),
            ) && m@ == "Malformed Url"@),
    {
        if let Err(e) = validate_path(file_path.as_str(), info) {
            proof {
                assert(!(e is UnequalSizeError) && !(e is StringParseError));
            }
            return Err(e);
        }
        if let Some(b) = bytes_uploaded {
            if b > info.len {
                return Err(TusError::UnequalSizeError);
            }
        }
        let host = match parse_url(upload_host.as_str()) {
            Some(h) => h,
            None => {
                return Err(TusError::StringParseError(String::from_str("Malformed Url")));
            },
        };
        let status = UploadStatus::new(info.len, bytes_uploaded);
        Ok(
            UploadMeta {
                file_path,
                upload_host: host,
                extra_meta,
                custom_headers,
                status,
                error_count: 0,
                version: String::from_str("1"),
                remote_url: None,
                mime_type: None,
            },
        )
    }

    /// Is the upload complete: has the server acknowledged every byte?
    pub fn upload_complete(&self) -> (r: bool)
        ensures
            r == (self@.bytes_uploaded >= self@.size),
    {
        self.status.bytes_uploaded >= self.status.size
    }

    /// An identical record, field for field.
    pub fn duplicate(&self) -> (r: Self)
        ensures
            r@ == self@,
    {
        UploadMeta {
            upload_host: self.upload_host.clone(),
            file_path: self.file_path.clone(),
            remote_url: clone_opt_string(&self.remote_url),
            status: self.status,
            version: self.version.clone(),
            extra_meta: clone_opt_pairs(&self.extra_meta),
            mime_type: clone_opt_string(&self.mime_type),
            custom_headers: clone_opt_pairs(&self.custom_headers),
            error_count: self.error_count,
        }
    }

    /// The key/value pairs of the upload-metadata header for this upload:
    /// filename, media type when known, then the extra entries.
    pub fn data(&self) -> (r: Result<Vec<(String, String)>, TusError>)
        ensures
            r matches Ok(d) && d.deep_view() == spec_data(self@),
    {
        let mut h: Vec<(String, String)> = Vec::new();
        h.push((String::from_str("filename"), self.file_path.clone()));
        proof {
            assert(h.deep_view() =~= seq![("filename"@, self@.file_path)]);
        }
        let h = match &self.mime_type {
            Some(mime) => headers_insert(&h, "filetype", mime.as_str()),
            None => h,
        };
        let h = match &self.extra_meta {
            Some(extra) => fold_insert(h, extra),
            None => h,
        };
        Ok(h)
    }

    /// The encoded upload-metadata header value for this upload: each value
    /// base64-encoded, entries joined as the codec defines.
    pub fn data64(&self) -> (r: Result<String, TusError>)
        requires
            self.wf(),
        ensures
            r matches Ok(d) && d@ == spec_data64(self@),
    {
        let pairs = match self.data() {
            Ok(p) => p,
            Err(e) => {
                return Err(e);
            },
        };
        proof {
            let base = seq![("filename"@, self@.file_path)];
            assert(all_values_fit(base));
            match self@.mime_type {
                Some(m) => {
                    lemma_insert_values_fit(base, "filetype"@, m);
                    match self@.extra_meta {
                        Some(xs) => {
                            lemma_fold_values_fit(
                                spec_headers_insert(base, "filetype"@, m),
                                xs,
                            );
                        },
                        None => {},
                    }
                },
                None => {
                    match self@.extra_meta {
                        Some(xs) => {
                            lemma_fold_values_fit(base, xs);
                        },
                        None => {},
                    }
                },
            }
            assert(all_values_fit(spec_data(self@)));
        }
        let n = pairs.len();
        let mut bytes_pairs: Vec<(String, Vec<u8>)> = Vec::new();
        let mut i: usize = 0;
        let ghost target = spec_data(self@).map(
            |j: int, p: (Seq<char>, Seq<char>)| (p.0, vstd::utf8::encode_utf8(p.1)),
        );
        proof {
            assert(bytes_pairs.deep_view() =~= target.take(0));
        }
        while i < n
            invariant
                0 <= i <= n,
                n == pairs@.len(),
                pairs.deep_view() == spec_data(self@),
                all_values_fit(spec_data(self@)),
                target == spec_data(self@).map(
                    |j: int, p: (Seq<char>, Seq<char>)| (p.0, vstd::utf8::encode_utf8(p.1)),
                ),
                bytes_pairs.deep_view() == target.take(i as int),
            decreases n - i,
        {
            let ghost pre = bytes_pairs.deep_view();
            let vb = pairs[i].1.as_str().as_bytes_vec();
            bytes_pairs.push((pairs[i].0.clone(), vb));
            proof {
                assert(pairs.deep_view()[i as int] == (pairs@[i as int].0@, pairs@[i as int].1@));
                assert(vb.deep_view() =~= vstd::utf8::encode_utf8(pairs@[i as int].1@));
                assert(bytes_pairs.deep_view() =~= pre.push(target[i as int]));
                assert(pre.push(target[i as int]) =~= target.take(i as int + 1));
            }
            i = i + 1;
        }
        proof {
            assert(target.take(n as int) =~= target);
            assert(fits_meta_values(bytes_pairs.deep_view())) by {
                assert(forall|j: int| 0 <= j < target.len() ==> target[j].1
                    == vstd::utf8::encode_utf8(spec_data(self@)[j].1));
            }
        }
        Ok(encode_pairs(&bytes_pairs))
    }

    /// The same record with the server-acknowledged progress replaced.
    pub fn with_bytes_uploaded(&self, bytes_uploaded: usize) -> (r: Self)
        requires
            bytes_uploaded <= self@.size,
        ensures
            r@ == (MetaView { bytes_uploaded, ..self@ }),
    {
        let mut m = self.duplicate();
        m.status = UploadStatus { bytes_uploaded, size: self.status.size };
        m
    }

    /// The same record with the remote resource URL set to the parsed form of
    /// the given URL; rejects a string that does not parse as a URL.
    pub fn with_remote_dest(&self, remote_url: String) -> (r: Result<Self, TusError>)
        ensures
            match url_parse(remote_url@) {
                Some(u) => r matches Ok(m) && m@ == (MetaView {
                    remote_url: Some(u),
                    ..self@
                }),
                None => r matches Err(TusError::StringParseError(m)) && m@ == "Malformed Url"@,
            },
    {
        match parse_url(remote_url.as_str()) {
            Some(u) => {
                let mut m = self.duplicate();
                m.remote_url = Some(u);
                Ok(m)
            },
            None => Err(TusError::StringParseError(String::from_str("Malformed Url"))),
        }
    }
}

} // verus!
