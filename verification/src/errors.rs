//! The error taxonomy: validation, encoding, transport, protocol and decode
//! errors. Every operation reports failure through [`TusError`]; nothing is
//! swallowed except `terminate`, which is best-effort by design.

use vstd::prelude::*;

verus! {

/// The errors a TUS API handler can report.
#[derive(Debug, Clone, Copy)]
pub enum TusAPIError {
    /// An unspecified failure in the underlying transport machinery.
    UnderlyingError,
    /// The upload status could not be fetched.
    CouldNotFetchStatus,
    /// The server's capability information could not be fetched.
    CouldNotFetchServerInfo,
    /// The server-reported offset could not be retrieved.
    CouldNotRetrieveOffset,
    /// The created resource's location could not be retrieved.
    CouldNotRetrieveLocation,
    /// The request failed outright.
    FailedRequest,
}

/// Enumerates the errors which can occur during operation.
#[derive(Debug, Clone)]
pub enum TusError {
    /// A response status code outside the classified set, with the body text.
    UnexpectedStatusCode(usize, String),
    /// The server no longer knows the upload resource (status 404).
    NotFoundError,
    /// The server signalled a checksum mismatch (status 460).
    ChecksumMismatch,
    /// The local path's final component is not an acceptable filename.
    InvalidFilename(String),
    /// The local path has no final component.
    EmptyFilename,
    /// A response lacked a header the operation strictly requires.
    MissingHeader(String),
    /// The operation needs a remote upload URL, but none was created yet.
    MissingUploadUrl,
    /// A request header name is not valid on the wire.
    InvalidHeader(String),
    /// A request header value is not valid on the wire.
    InvalidHeaderValue(String),
    /// A filesystem failure, reported by the caller's file access.
    IoError(String),
    /// A string could not be parsed into the needed form.
    StringParseError(String),
    /// The server reported more bytes than the upload has.
    UnequalSizeError,
    /// The local file could not be read as the upload requires.
    FileReadError(String),
    /// The server rejected the client's believed offset (status 409).
    WrongUploadOffsetError,
    /// The file is larger than the server supports (status 413).
    FileTooLarge,
    /// The server answered in a way the protocol forbids.
    ProtocolViolation(String),
    /// An error reported by the HTTP handler.
    HttpHandlerError(TusAPIError),
    /// A transport failure, surfaced verbatim and never retried.
    RequestError(String),
    /// The server rejected the request as malformed (status 400), with the body text.
    BadRequest(String),
    /// A name for a protocol operation could not be recognized.
    SerdeError,
}

} // verus!
