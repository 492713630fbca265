//! Response descriptors: a validated, immutable record of a completed
//! HTTP exchange, assembled from the transport's raw answer.

use vstd::prelude::*;
use crate::error::HttpError;

verus! {

/// What decoding the byte sequence as UTF-8 text yields, when it is
/// valid UTF-8 at all.
pub uninterp spec fn utf8_decoded(b: Seq<u8>) -> Option<Seq<char>>;

/// Relies on `String::from_utf8`: it succeeds exactly on valid UTF-8
/// input and the decoded text is a function of the bytes alone.
#[verifier::external_body]
fn decode_utf8(bytes: &Vec<u8>) -> (r: Option<String>)
    ensures
        r is Some <==> utf8_decoded(bytes@) is Some,
        r matches Some(s) ==> utf8_decoded(bytes@) == Some(s@),
{
    String::from_utf8(bytes.clone()).ok()
}

/// A completed exchange: protocol version, status line parts, the
/// headers in arrival order (duplicates preserved), and the body as
/// decoded text. Never mutated once assembled.
#[derive(Debug, Clone)]
pub struct ResponseDescriptor {
    pub http_version: String,
    pub status_code: u16,
    pub status_text: String,
    pub headers: Vec<(String, String)>,
    pub body_text: String,
}

impl ResponseDescriptor {
    /// Builds the descriptor from the transport's raw answer.
    ///
    /// Every status code is accepted — 4xx/5xx are valid responses, not
    /// failures — and all parts are carried over unchanged. The one way
    /// to fail is a body that is not valid UTF-8, which is rejected as
    /// `UndecodableBody`.
    pub fn assemble(
        http_version: String,
        status_code: u16,
        status_text: String,
        headers: Vec<(String, String)>,
        body: &Vec<u8>,
    ) -> (r: Result<ResponseDescriptor, HttpError>)
        ensures
            r is Ok <==> utf8_decoded(body@) is Some,
            r matches Ok(d) ==> {
                &&& d.http_version@ == http_version@
                &&& d.status_code == status_code
                &&& d.status_text@ == status_text@
                &&& d.headers@ == headers@
                &&& utf8_decoded(body@) == Some(d.body_text@)
            },
            r matches Err(e) ==> e is UndecodableBody,
    {
        match decode_utf8(body) {
            Some(body_text) => Ok(
                ResponseDescriptor { http_version, status_code, status_text, headers, body_text },
            ),
            None => Err(HttpError::UndecodableBody),
        }
    }
}

} // verus!
