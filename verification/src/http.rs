//! The transport seam: plain request and response values, and the handler
//! trait a concrete HTTP transport implements outside the library.

use vstd::prelude::*;

use crate::errors::TusError;

verus! {

/// Enumerates the HTTP methods used by the TUS client.
#[derive(Debug, Clone, Copy, PartialEq, Eq, Structural)]
pub enum TusHttpMethod {
    /// Used to determine the offset at which the upload should be continued.
    Head,
    Post,
    Get,
    /// Used to send one chunk of the upload.
    Patch,
    /// Used to discover the server's capabilities.
    Options,
    /// Used to terminate an upload.
    Delete,
}

/// An HTTP request to be executed by the handler.
#[derive(Debug)]
pub struct HttpRequest {
    pub method: TusHttpMethod,
    pub headers: Vec<(String, String)>,
    pub url: String,
    pub body: Option<Vec<u8>>,
}

/// An HTTP response from the server: status code, headers, and body text
/// where the transport read one.
#[derive(Debug)]
pub struct HttpResponse {
    pub headers: Vec<(String, String)>,
    pub status_code: usize,
    pub body: Option<String>,
}

/// The trait the client drives requests through: a transport collaborator,
/// implemented outside the library. Nothing is assumed of what it returns;
/// the client's contracts hold for every response.
pub trait HttpHandler {
    fn handle_request(&self, req: HttpRequest) -> Result<HttpResponse, TusError>;
}

} // verus!
