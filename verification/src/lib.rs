//! A client-side core for the TUS resumable-upload protocol: upload metadata,
//! the wire-header codec, the operation dispatcher, and the chunked upload
//! orchestration loop, all with verified contracts. The HTTP transport is a
//! collaborator behind the [`http::HttpHandler`] trait.

pub mod b64;
pub mod client;
pub mod codec;
pub mod errors;
pub mod headers;
pub mod http;
pub mod info;
pub mod ops;
pub mod strutil;
pub mod upload_meta;
