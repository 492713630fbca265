//! Request descriptors: a validated, immutable record of what to send.
//!
//! A descriptor is built once per invocation from raw command-line
//! input, after URL and body-pair validation, and consumed exactly once
//! by the dispatcher.

use vstd::prelude::*;
use crate::error::HttpError;
use crate::kv::{kv_split, parse_kv_pair, KvPair};

verus! {

/// The closed set of supported HTTP methods.
#[derive(Debug, Clone, Copy, PartialEq, Eq, Structural)]
pub enum Method {
    Get,
    Post,
}

/// Whether the string is an absolute URL: it parses with a scheme and
/// has a host.
pub uninterp spec fn url_valid(s: Seq<char>) -> bool;

/// Whether the sequence contains the `:` every absolute URL must have
/// at the end of its scheme.
pub open spec fn has_scheme_colon(s: Seq<char>) -> bool {
    exists|i: int| 0 <= i < s.len() && s[i] == ':'
}

/// Relies on `url::Url::parse` and `url::Url::has_host`: the string is
/// accepted exactly when it parses as an absolute URL whose authority
/// has a host; a parsed URL always contains the `:` that terminates
/// its scheme.
#[verifier::external_body]
fn url_is_valid(s: &str) -> (r: bool)
    ensures
        r == url_valid(s@),
        r ==> has_scheme_colon(s@),
{
    match url::Url::parse(s) {
        Ok(u) => u.has_host(),
        Err(_) => false,
    }
}

/// Validates a raw URL string and hands it back unchanged.
///
/// Succeeds exactly on absolute URLs with a scheme and host, and the
/// accepted string re-serializes to the identical input; in particular
/// any string without a `:` (hence without a scheme) is rejected as
/// `InvalidUrl`.
pub fn parse_url(s: &str) -> (r: Result<String, HttpError>)
    ensures
        r is Ok <==> url_valid(s@),
        r matches Ok(u) ==> u@ == s@,
        r matches Err(e) ==> e matches HttpError::InvalidUrl { input } && input@ == s@,
        !has_scheme_colon(s@) ==> r is Err,
{
    if url_is_valid(s) {
        Ok(s.to_owned())
    } else {
        Err(HttpError::InvalidUrl { input: s.to_owned() })
    }
}

/// Whether a raw body token splits into a non-empty key and a value.
pub open spec fn pair_ok(s: Seq<char>) -> bool {
    kv_split(s) matches Some(kv) && kv.0.len() > 0
}

/// The parsed form of a raw body token that satisfies [`pair_ok`].
pub open spec fn pair_parses_to(s: Seq<char>, p: KvPair) -> bool {
    kv_split(s) == Some((p.k@, p.v@))
}

/// A validated, immutable outbound request: method, absolute target
/// URL, and the ordered body pairs.
#[derive(Debug, Clone)]
pub struct RequestDescriptor {
    pub method: Method,
    pub url: String,
    pub body: Vec<KvPair>,
}

impl RequestDescriptor {
    /// The descriptor's construction-time invariant: the URL is a valid
    /// absolute URL and a GET carries no body.
    pub open spec fn wf(self) -> bool {
        url_valid(self.url@) && (self.method is Get ==> self.body@.len() == 0)
    }

    /// A well-formed GET descriptor always carries an empty body, and
    /// any descriptor's URL is a valid absolute URL.
    pub proof fn lemma_wf_get_empty_body(d: RequestDescriptor)
        requires
            d.wf(),
            d.method is Get,
        ensures
            d.body@.len() == 0,
            url_valid(d.url@),
    {
    }

    /// Builds a GET descriptor. The body is always empty.
    pub fn get(url: &str) -> (r: Result<RequestDescriptor, HttpError>)
        ensures
            r is Ok <==> url_valid(url@),
            r matches Ok(d) ==> d.method is Get && d.url@ == url@ && d.body@.len() == 0
                && d.wf(),
            r matches Err(e) ==> e matches HttpError::InvalidUrl { input } && input@ == url@,
            !has_scheme_colon(url@) ==> r is Err,
    {
        let u = parse_url(url)?;
        Ok(RequestDescriptor { method: Method::Get, url: u, body: Vec::new() })
    }

    /// Builds a POST descriptor from the raw body tokens.
    ///
    /// The body holds exactly the given tokens' parses, in the given
    /// order. Construction fails with `InvalidUrl` exactly when the URL
    /// is not absolute, and with `InvalidKeyValuePair` exactly when the
    /// URL is fine but some token has no `=` or an empty key; no
    /// network activity can follow from a failed construction.
    pub fn post(url: &str, raw_pairs: &Vec<String>) -> (r: Result<RequestDescriptor, HttpError>)
        ensures
            r is Ok <==> url_valid(url@) && (forall|i: int|
                0 <= i < raw_pairs@.len() ==> pair_ok(raw_pairs@[i]@)),
            r matches Ok(d) ==> {
                &&& d.method is Post
                &&& d.url@ == url@
                &&& d.body@.len() == raw_pairs@.len()
                &&& forall|i: int|
                    0 <= i < raw_pairs@.len() ==> pair_parses_to(raw_pairs@[i]@, d.body@[i])
                &&& d.wf()
            },
            r matches Err(e) ==> match e {
                HttpError::InvalidUrl { input } => input@ == url@ && !url_valid(url@),
                HttpError::InvalidKeyValuePair { input } => url_valid(url@) && exists|i: int|
                    0 <= i < raw_pairs@.len() && input@ == raw_pairs@[i]@ && !pair_ok(
                        raw_pairs@[i]@,
                    ),
                _ => false,
            },
    {
        let u = parse_url(url)?;
        let mut body: Vec<KvPair> = Vec::new();
        let n: usize = raw_pairs.len();
        let mut i: usize = 0;
        while i < n
            invariant
                n == raw_pairs@.len(),
                i <= n,
                url_valid(url@),
                u@ == url@,
                body@.len() == i,
                forall|j: int| 0 <= j < i ==> pair_ok(raw_pairs@[j]@),
                forall|j: int| 0 <= j < i ==> pair_parses_to(raw_pairs@[j]@, body@[j]),
            decreases n - i,
        {
            match parse_kv_pair(raw_pairs[i].as_str()) {
                Ok(p) => {
                    body.push(p);
                },
                Err(e) => {
                    return Err(e);
                },
            }
            i = i + 1;
        }
        Ok(RequestDescriptor { method: Method::Post, url: u, body })
    }
}

} // verus!
