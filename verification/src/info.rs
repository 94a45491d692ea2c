//! Capability discovery: the protocol extensions a server can advertise and
//! the ephemeral record decoded from a discovery response's headers.

use vstd::prelude::*;

use crate::errors::TusError;
use crate::headers::{opt_vec_string_view, TusHeaders};
use crate::strutil::{opt_string_view, str_eq};

verus! {

/// A protocol extension a server can advertise in its `tus-extension` header.
#[derive(Debug, Clone, Copy, PartialEq, Eq, Structural)]
pub enum TusExtension {
    Creation,
    CreationWithUpload,
    Termination,
    Expiration,
    Concatenation,
    CreationDeferLength,
}

/// The extension named by a wire token, if any.
pub open spec fn spec_ext_of(s: Seq<char>) -> Option<TusExtension> {
    if s == "creation"@ {
        Some(TusExtension::Creation)
    } else if s == "creation-with-upload"@ {
        Some(TusExtension::CreationWithUpload)
    } else if s == "termination"@ {
        Some(TusExtension::Termination)
    } else if s == "expiration"@ {
        Some(TusExtension::Expiration)
    } else if s == "concatenation"@ {
        Some(TusExtension::Concatenation)
    } else if s == "creation-defer-length"@ {
        Some(TusExtension::CreationDeferLength)
    } else {
        None
    }
}

/// The recognized extensions among a list of wire tokens, in order,
/// unrecognized tokens dropped.
pub open spec fn spec_parse_extensions(parts: Seq<Seq<char>>) -> Seq<TusExtension>
    decreases parts.len(),
{
    if parts.len() == 0 {
        Seq::empty()
    } else {
        match spec_ext_of(parts[0]) {
            Some(e) => seq![e] + spec_parse_extensions(parts.skip(1)),
            None => spec_parse_extensions(parts.skip(1)),
        }
    }
}

impl TusExtension {
    /// Recognize one wire token; the error carries the unrecognized token.
    pub fn from_str(s: &str) -> (r: Result<TusExtension, TusError>)
        ensures
            match spec_ext_of(s@) {
                Some(e) => r matches Ok(x) && x == e,
                None => r matches Err(TusError::StringParseError(m)) && m@ == s@,
            },
    {
        if str_eq(s, "creation") {
            Ok(TusExtension::Creation)
        } else if str_eq(s, "creation-with-upload") {
            Ok(TusExtension::CreationWithUpload)
        } else if str_eq(s, "termination") {
            Ok(TusExtension::Termination)
        } else if str_eq(s, "expiration") {
            Ok(TusExtension::Expiration)
        } else if str_eq(s, "concatenation") {
            Ok(TusExtension::Concatenation)
        } else if str_eq(s, "creation-defer-length") {
            Ok(TusExtension::CreationDeferLength)
        } else {
            Err(TusError::StringParseError(String::from_str(s)))
        }
    }
}

/// What capability discovery reports of a server: protocol version, size
/// limit, extensions, supported versions and checksum algorithms. Produced
/// once per discovery call; not part of any upload's state.
#[derive(Debug)]
pub struct TusServerInfo {
    pub version: Option<String>,
    pub max_size: Option<usize>,
    pub extensions: Vec<TusExtension>,
    pub supported_versions: Vec<String>,
    pub supported_checksum_algorithms: Option<Vec<String>>,
}

impl TusServerInfo {
    /// The capability record a set of typed headers describes; absent list
    /// fields become empty lists.
    pub fn from_headers(headers: TusHeaders) -> (r: TusServerInfo)
        ensures
            opt_string_view(r.version) == opt_string_view(headers.version),
            r.max_size == headers.max_size,
            r.extensions@ == (match headers.extensions {
                Some(es) => es@,
                None => Seq::<TusExtension>::empty(),
            }),
            r.supported_versions.deep_view() == (match headers.supported_versions {
                Some(vs) => vs.deep_view(),
                None => Seq::<Seq<char>>::empty(),
            }),
            opt_vec_string_view(r.supported_checksum_algorithms) == opt_vec_string_view(
                headers.checksum_algorithms,
            ),
    {
        let extensions = match headers.extensions {
            Some(es) => es,
            None => {
                let empty: Vec<TusExtension> = Vec::new();
                empty
            },
        };
        let supported_versions = match headers.supported_versions {
            Some(vs) => vs,
            None => {
                let empty: Vec<String> = Vec::new();
                proof {
                    assert(empty.deep_view() =~= Seq::<Seq<char>>::empty());
                }
                empty
            },
        };
        TusServerInfo {
            version: headers.version,
            max_size: headers.max_size,
            extensions,
            supported_versions,
            supported_checksum_algorithms: headers.checksum_algorithms,
        }
    }
}

} // verus!
