//! Base64 for the upload-metadata header, through the `base64` crate's
//! standard-alphabet padded engine. The encoding and the decoding are named
//! here and everything else is proved against these two items.

use vstd::prelude::*;

verus! {

/// A character base64 output may contain: the RFC 4648 standard alphabet
/// (`A`-`Z`, `a`-`z`, `0`-`9`, `+`, `/`) plus the padding character `=`.
pub open spec fn is_base64_char(c: char) -> bool {
    (65 <= c as int && c as int <= 90) || (97 <= c as int && c as int <= 122) || (48 <= c as int
        && c as int <= 57) || c == '+' || c == '/' || c == '='
}

/// The standard-alphabet padded base64 encoding of a byte sequence.
pub uninterp spec fn base64_encoding(bytes: Seq<u8>) -> Seq<char>;

/// What standard-alphabet padded base64 decoding yields on a character
/// sequence: the decoded bytes, or absent when the input is not valid base64.
pub uninterp spec fn base64_decoding(s: Seq<char>) -> Option<Seq<u8>>;

/// An input the encoder accepts without its encoded length overflowing.
pub open spec fn fits_base64(bytes: Seq<u8>) -> bool {
    bytes.len() <= 0x1000_0000_0000_0000
}

/// Relies on base64's `Engine::encode` with the `STANDARD` engine: the result
/// is the RFC 4648 standard-alphabet padded encoding of the input, determined
/// by the input bytes alone, drawn from that alphabet, and `Engine::decode`
/// of the same engine inverts it. `encode` panics when the encoded length
/// overflows, so overlong inputs are excluded.
#[verifier::external_body]
pub(crate) fn base64_encode(bytes: &[u8]) -> (r: String)
    requires
        fits_base64(bytes@),
    ensures
        r@ == base64_encoding(bytes@),
        base64_decoding(r@) == Some(bytes@),
        forall|i: int| 0 <= i < r@.len() ==> is_base64_char(#[trigger] r@[i]),
{
    base64::Engine::encode(&base64::engine::general_purpose::STANDARD, bytes)
}

/// Relies on base64's `Engine::decode` with the `STANDARD` engine: the result
/// is determined by the input characters alone; invalid base64 is reported as
/// an error, mapped to an absent result here.
#[verifier::external_body]
pub(crate) fn base64_decode(s: &str) -> (r: Option<Vec<u8>>)
    ensures
        r matches Some(v) ==> base64_decoding(s@) == Some(v@),
        r is None ==> base64_decoding(s@) is None,
{
    base64::Engine::decode(&base64::engine::general_purpose::STANDARD, s).ok()
}

} // verus!
