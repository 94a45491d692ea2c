//! The operation dispatcher: the closed set of protocol operations, each
//! defining its HTTP verb, required request headers, target URL rule and
//! response decode rule, plus the uniform status-code classification.

use vstd::prelude::*;

use crate::errors::TusError;
use crate::headers::{default_headers, fold_insert, headers_insert, spec_default_headers,
    spec_fold_insert, spec_headers_insert, TusHeaders};
use crate::http::TusHttpMethod;
use crate::strutil::{dec_str, spec_lookup, spec_parse_usize, str_eq, usize_to_string};
use crate::upload_meta::{spec_data64, url_parse, MetaView, UploadMeta};

verus! {

/// The four protocol operations. A stateless tag: each selects a verb, the
/// required headers, the target URL rule and the response decode rule.
#[derive(Debug, Clone, Copy, PartialEq, Eq, Structural)]
pub enum TusOp {
    /// Ask the server at which offset the upload should be continued.
    /// Assumes the upload resource was already created.
    GetOffset,
    /// Send one chunk of the upload at the current offset.
    Upload,
    /// Create a new upload resource on the server.
    Create,
    /// End the upload and delete the resource on the server.
    Terminate,
}

/// The HTTP verb of each operation.
pub open spec fn spec_op_method(op: TusOp) -> TusHttpMethod {
    match op {
        TusOp::GetOffset => TusHttpMethod::Head,
        TusOp::Upload => TusHttpMethod::Patch,
        TusOp::Create => TusHttpMethod::Post,
        TusOp::Terminate => TusHttpMethod::Delete,
    }
}

/// The operation named by a wire token, if any.
pub open spec fn spec_op_of(s: Seq<char>) -> Option<TusOp> {
    if s == "getoffset"@ {
        Some(TusOp::GetOffset)
    } else if s == "upload"@ {
        Some(TusOp::Upload)
    } else if s == "create"@ {
        Some(TusOp::Create)
    } else if s == "terminate"@ {
        Some(TusOp::Terminate)
    } else {
        None
    }
}

/// The headers one request for this operation carries: the defaults, the
/// encoded upload-metadata, the caller's custom headers (which win on name
/// collision), and the operation's own required headers last.
pub open spec fn spec_op_headers(op: TusOp, v: MetaView) -> Seq<(Seq<char>, Seq<char>)> {
    let base = spec_headers_insert(spec_default_headers(), "upload-metadata"@, spec_data64(v));
    let with_custom = match v.custom_headers {
        Some(cs) => spec_fold_insert(base, cs),
        None => base,
    };
    match op {
        TusOp::Create => spec_headers_insert(
            with_custom,
            "upload-length"@,
            dec_str(v.size as nat),
        ),
        TusOp::Upload => spec_headers_insert(
            spec_headers_insert(
                with_custom,
                "content-type"@,
                "application/offset+octet-stream"@,
            ),
            "upload-offset"@,
            dec_str(v.bytes_uploaded as nat),
        ),
        _ => with_custom,
    }
}

/// The target URL of each operation: creation posts to the upload host, every
/// other operation addresses the remote resource URL, absent until creation.
pub open spec fn spec_op_url(op: TusOp, v: MetaView) -> Option<Seq<char>> {
    match op {
        TusOp::Create => Some(v.upload_host),
        _ => v.remote_url,
    }
}

/// The `upload-offset` field of a raw header list, as a number.
pub open spec fn spec_offset_of(hs: Seq<(Seq<char>, Seq<char>)>) -> Option<usize> {
    match spec_lookup(hs, "upload-offset"@) {
        None => None,
        Some(s) => spec_parse_usize(s),
    }
}

/// The `location` field of a raw header list.
pub open spec fn spec_location_of(hs: Seq<(Seq<char>, Seq<char>)>) -> Option<Seq<char>> {
    spec_lookup(hs, "location"@)
}

/// A successful offset-query decode: the response carries an offset within
/// the size, and the new metadata is the old with exactly that progress.
pub open spec fn get_offset_decodes_to(
    hs: Seq<(Seq<char>, Seq<char>)>,
    v: MetaView,
    w: MetaView,
) -> bool {
    &&& spec_offset_of(hs) matches Some(off)
    &&& spec_offset_of(hs)->Some_0 <= v.size
    &&& w == (MetaView { bytes_uploaded: spec_offset_of(hs)->Some_0, ..v })
}

/// A successful upload decode: the response carries an offset within the
/// size and not below the previous progress, and the new metadata is the old
/// with exactly that progress.
pub open spec fn upload_decodes_to(
    hs: Seq<(Seq<char>, Seq<char>)>,
    v: MetaView,
    w: MetaView,
) -> bool {
    &&& spec_offset_of(hs) matches Some(off)
    &&& spec_offset_of(hs)->Some_0 <= v.size
    &&& spec_offset_of(hs)->Some_0 >= v.bytes_uploaded
    &&& w == (MetaView { bytes_uploaded: spec_offset_of(hs)->Some_0, ..v })
}

/// Law: offset queries are idempotent. A successful offset decode adopts the
/// server-reported offset alone, so decoding the same response again, with no
/// intervening upload, returns the identical metadata — in particular the
/// identical progress.
pub proof fn lemma_get_offset_idempotent(
    hs: Seq<(Seq<char>, Seq<char>)>,
    v: MetaView,
    w: MetaView,
    w2: MetaView,
)
    requires
        get_offset_decodes_to(hs, v, w),
        get_offset_decodes_to(hs, w, w2),
    ensures
        w2 == w,
        w2.bytes_uploaded == w.bytes_uploaded,
{
}

/// Law: across successive upload decodes for one upload, the progress never
/// decreases — each step's offset is at least the previous progress, so any
/// chain of successful uploads is monotone.
pub proof fn lemma_upload_monotonic(
    h1: Seq<(Seq<char>, Seq<char>)>,
    h2: Seq<(Seq<char>, Seq<char>)>,
    v1: MetaView,
    v2: MetaView,
    v3: MetaView,
)
    requires
        upload_decodes_to(h1, v1, v2),
        upload_decodes_to(h2, v2, v3),
    ensures
        v1.bytes_uploaded <= v2.bytes_uploaded,
        v2.bytes_uploaded <= v3.bytes_uploaded,
{
}

impl TusOp {
    /// The HTTP verb of this operation.
    pub fn method(&self) -> (r: TusHttpMethod)
        ensures
            r == spec_op_method(*self),
    {
        match self {
            TusOp::GetOffset => TusHttpMethod::Head,
            TusOp::Upload => TusHttpMethod::Patch,
            TusOp::Create => TusHttpMethod::Post,
            TusOp::Terminate => TusHttpMethod::Delete,
        }
    }

    /// Recognize one operation name.
    pub fn from_str(value: &str) -> (r: Result<TusOp, TusError>)
        ensures
            match spec_op_of(value@) {
                Some(op) => r matches Ok(o) && o == op,
                None => r matches Err(TusError::SerdeError),
            },
    {
        if str_eq(value, "getoffset") {
            Ok(TusOp::GetOffset)
        } else if str_eq(value, "upload") {
            Ok(TusOp::Upload)
        } else if str_eq(value, "create") {
            Ok(TusOp::Create)
        } else if str_eq(value, "terminate") {
            Ok(TusOp::Terminate)
        } else {
            Err(TusError::SerdeError)
        }
    }

    /// Build the request headers for this operation on this upload.
    pub fn headers(&self, metadata: &UploadMeta) -> (r: Result<Vec<(String, String)>, TusError>)
        requires
            metadata.wf(),
        ensures
            r matches Ok(h) && h.deep_view() == spec_op_headers(*self, metadata@),
    {
        let base = default_headers();
        let data = match metadata.data64() {
            Ok(d) => d,
            Err(e) => {
                return Err(e);
            },
        };
        let base = headers_insert(&base, "upload-metadata", data.as_str());
        let with_custom = match &metadata.custom_headers {
            Some(cs) => fold_insert(base, cs),
            None => base,
        };
        match self {
            TusOp::Create => {
                let len_s = usize_to_string(metadata.status.size);
                Ok(headers_insert(&with_custom, "upload-length", len_s.as_str()))
            },
            TusOp::Upload => {
                let h = headers_insert(
                    &with_custom,
                    "content-type",
                    "application/offset+octet-stream",
                );
                let off_s = usize_to_string(metadata.status.bytes_uploaded);
                Ok(headers_insert(&h, "upload-offset", off_s.as_str()))
            },
            _ => Ok(with_custom),
        }
    }

    /// The URL this operation addresses; every operation but creation needs
    /// the remote resource URL and fails when none was created yet.
    pub fn url_for_meta(&self, metadata: &UploadMeta) -> (r: Result<String, TusError>)
        ensures
            match spec_op_url(*self, metadata@) {
                Some(u) => r matches Ok(s) && s@ == u,
                None => r matches Err(TusError::MissingUploadUrl),
            },
    {
        match self {
            TusOp::Create => Ok(metadata.upload_host.clone()),
            _ => match &metadata.remote_url {
                Some(u) => Ok(u.clone()),
                None => Err(TusError::MissingUploadUrl),
            },
        }
    }

    /// Decode a successful response's headers into the next metadata value,
    /// per operation: creation strictly needs `location` and sets the remote
    /// URL; offset queries and uploads strictly need `upload-offset` and set
    /// the progress, an upload's offset never below the previous progress and
    /// never beyond the size; termination leaves the metadata unchanged.
    pub fn handle_response(&self, headers: &Vec<(String, String)>, metadata: &UploadMeta) -> (r:
        Result<UploadMeta, TusError>)
        requires
            metadata.wf(),
            *self == TusOp::Create ==> metadata@.remote_url is None,
        ensures
            r matches Ok(m) ==> m.wf(),
            r matches Ok(m) ==> (*self == TusOp::Upload ==> m@.bytes_uploaded
                >= metadata@.bytes_uploaded),
            r matches Ok(m) ==> (*self == TusOp::GetOffset ==> get_offset_decodes_to(
                headers.deep_view(),
                metadata@,
                m@,
            )),
            r matches Ok(m) ==> (*self == TusOp::Upload ==> upload_decodes_to(
                headers.deep_view(),
                metadata@,
                m@,
            )),
            match *self {
                TusOp::Create => match spec_location_of(headers.deep_view()) {
                    None => r matches Err(TusError::MissingHeader(h)) && h@ == "location"@,
                    Some(loc) => match url_parse(loc) {
                        Some(u) => r matches Ok(m) && m@ == (MetaView {
                            remote_url: Some(u),
                            ..metadata@
                        }),
                        None => r matches Err(TusError::StringParseError(msg)) && msg@
                            == "Malformed Url"@,
                    },
                },
                TusOp::GetOffset => match spec_offset_of(headers.deep_view()) {
                    None => r matches Err(TusError::MissingHeader(h)) && h@ == "upload-offset"@,
                    Some(off) => if off > metadata@.size {
                        r matches Err(TusError::UnequalSizeError)
                    } else {
                        r matches Ok(m) && m@ == (MetaView {
                            bytes_uploaded: off,
                            ..metadata@
                        })
                    },
                },
                TusOp::Upload => match spec_offset_of(headers.deep_view()) {
                    None => r matches Err(TusError::MissingHeader(h)) && h@ == "upload-offset"@,
                    Some(off) => if off > metadata@.size {
                        r matches Err(TusError::UnequalSizeError)
                    } else if off < metadata@.bytes_uploaded {
                        r matches Err(TusError::ProtocolViolation(msg)) && msg@
                            == "Server offset decreased"@
                    } else {
                        r matches Ok(m) && m@ == (MetaView {
                            bytes_uploaded: off,
                            ..metadata@
                        })
                    },
                },
                TusOp::Terminate => r matches Ok(m) && m@ == metadata@,
            },
    {
        let th = TusHeaders::from_pairs(headers);
        match self {
            TusOp::Create => match th.location {
                Some(loc) => metadata.with_remote_dest(loc),
                None => Err(TusError::MissingHeader(String::from_str("location"))),
            },
            TusOp::GetOffset => match th.offset {
                Some(off) => {
                    if off > metadata.status.size {
                        Err(TusError::UnequalSizeError)
                    } else {
                        Ok(metadata.with_bytes_uploaded(off))
                    }
                },
                None => Err(TusError::MissingHeader(String::from_str("upload-offset"))),
            },
            TusOp::Upload => match th.offset {
                Some(off) => {
                    if off > metadata.status.size {
                        Err(TusError::UnequalSizeError)
                    } else if off < metadata.status.bytes_uploaded {
                        Err(TusError::ProtocolViolation(String::from_str(
                            "Server offset decreased",
                        )))
                    } else {
                        Ok(metadata.with_bytes_uploaded(off))
                    }
                },
                None => Err(TusError::MissingHeader(String::from_str("upload-offset"))),
            },
            TusOp::Terminate => Ok(metadata.duplicate()),
        }
    }
}

/// Classify a response's status code, uniformly for every operation: 2xx is
/// success, the named codes map to their protocol errors, anything else is an
/// unexpected status carrying the code and the body text.
pub fn classify_status(status: usize, body: String) -> (r: Result<(), TusError>)
    ensures
        r is Ok <==> 200 <= status <= 299,
        status == 400 ==> (r matches Err(TusError::BadRequest(b)) && b@ == body@),
        status == 404 ==> r matches Err(TusError::NotFoundError),
        status == 409 ==> r matches Err(TusError::WrongUploadOffsetError),
        status == 413 ==> r matches Err(TusError::FileTooLarge),
        status == 460 ==> r matches Err(TusError::ChecksumMismatch),
        !(200 <= status <= 299) && status != 400 && status != 404 && status != 409 && status != 413
            && status != 460 ==> (r matches Err(TusError::UnexpectedStatusCode(c, b)) && c == status
            && b@ == body@),
{
    if 200 <= status && status <= 299 {
        Ok(())
    } else if status == 400 {
        Err(TusError::BadRequest(body))
    } else if status == 404 {
        Err(TusError::NotFoundError)
    } else if status == 409 {
        Err(TusError::WrongUploadOffsetError)
    } else if status == 413 {
        Err(TusError::FileTooLarge)
    } else if status == 460 {
        Err(TusError::ChecksumMismatch)
    } else {
        Err(TusError::UnexpectedStatusCode(status, body))
    }
}

} // verus!
