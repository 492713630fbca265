//! Content classification: which presentation a response body gets,
//! derived once per render from the response's `Content-Type` header.

use vstd::prelude::*;
use crate::response::ResponseDescriptor;
use crate::text::{seq_eq_nocase, str_eq, str_eq_nocase};

verus! {

/// The presentation strategy for a response body.
#[derive(Debug, Clone, Copy, PartialEq, Eq, Structural)]
pub enum ContentKind {
    Json,
    Html,
    Other,
}

/// The media type's essence — `type/subtype` in lower case, parameters
/// such as `; charset=...` stripped — or `None` when the header value
/// is not a well-formed media type.
pub uninterp spec fn mime_essence(s: Seq<char>) -> Option<Seq<char>>;

/// Relies on `mime::Mime::from_str` (through `str::parse`) and
/// `Mime::essence_str`: parsing succeeds or fails as a function of the
/// string alone, and the essence is the lower-cased `type/subtype`
/// with parameters stripped.
#[verifier::external_body]
fn parse_essence(ct: &str) -> (r: Option<String>)
    ensures
        r is Some <==> mime_essence(ct@) is Some,
        r matches Some(e) ==> mime_essence(ct@) == Some(e@),
{
    ct.parse::<mime::Mime>().ok().map(|m| m.essence_str().to_string())
}

/// The kind a parsed (or unparseable) essence maps to.
pub open spec fn kind_of_essence(e: Option<Seq<char>>) -> ContentKind {
    match e {
        None => ContentKind::Other,
        Some(s) => if s == "application/json"@ {
            ContentKind::Json
        } else if s == "text/html"@ {
            ContentKind::Html
        } else {
            ContentKind::Other
        },
    }
}

/// The kind an optional `Content-Type` header value maps to: absent or
/// unparseable values render verbatim.
pub open spec fn content_kind_of(ct: Option<Seq<char>>) -> ContentKind {
    match ct {
        None => ContentKind::Other,
        Some(s) => kind_of_essence(mime_essence(s)),
    }
}

/// Classifies an optional `Content-Type` header value:
/// `application/json` (any parameters) is JSON, `text/html` is HTML,
/// everything else — a different type, an unparseable value, or no
/// header at all — renders verbatim.
pub fn classify(ct: Option<&str>) -> (k: ContentKind)
    ensures
        ct is None ==> k is Other,
        ct matches Some(s) ==> k == content_kind_of(Some(s@)),
{
    match ct {
        None => ContentKind::Other,
        Some(s) => match parse_essence(s) {
            None => ContentKind::Other,
            Some(e) => {
                if str_eq(e.as_str(), "application/json") {
                    ContentKind::Json
                } else if str_eq(e.as_str(), "text/html") {
                    ContentKind::Html
                } else {
                    ContentKind::Other
                }
            },
        },
    }
}

/// The value of the first header with the given name, compared without
/// regard to ASCII case, as the header mapping is case-insensitive.
pub open spec fn spec_find_header(hs: Seq<(String, String)>, name: Seq<char>) -> Option<Seq<char>>
    decreases hs.len(),
{
    if hs.len() == 0 {
        None
    } else if seq_eq_nocase(hs[0].0@, name) {
        Some(hs[0].1@)
    } else {
        spec_find_header(hs.drop_first(), name)
    }
}

proof fn lemma_find_header_skip(hs: Seq<(String, String)>, name: Seq<char>, i: int)
    requires
        0 <= i <= hs.len(),
        forall|j: int| 0 <= j < i ==> !seq_eq_nocase(hs[j].0@, name),
    ensures
        spec_find_header(hs, name) == spec_find_header(hs.skip(i), name),
    decreases i,
{
    if i > 0 {
        lemma_find_header_skip(hs, name, i - 1);
        assert(hs.skip(i - 1).drop_first() =~= hs.skip(i));
        assert(hs.skip(i - 1)[0] == hs[i - 1]);
    } else {
        assert(hs.skip(0) =~= hs);
    }
}

/// Looks up the first header with the given name, ASCII-case-insensitively.
pub fn find_header_value(headers: &Vec<(String, String)>, name: &str) -> (r: Option<String>)
    ensures
        r is Some <==> spec_find_header(headers@, name@) is Some,
        r matches Some(v) ==> spec_find_header(headers@, name@) == Some(v@),
{
    let n: usize = headers.len();
    let mut i: usize = 0;
    while i < n
        invariant
            n == headers@.len(),
            i <= n,
            forall|j: int| 0 <= j < i ==> !seq_eq_nocase(headers@[j].0@, name@),
        decreases n - i,
    {
        if str_eq_nocase(headers[i].0.as_str(), name) {
            proof {
                lemma_find_header_skip(headers@, name@, i as int);
                assert(headers@.skip(i as int)[0] == headers@[i as int]);
            }
            return Some(headers[i].1.clone());
        }
        i = i + 1;
    }
    proof {
        lemma_find_header_skip(headers@, name@, n as int);
    }
    None
}

/// The content kind of a whole response, from its `Content-Type`
/// header.
pub open spec fn spec_response_kind(d: ResponseDescriptor) -> ContentKind {
    content_kind_of(spec_find_header(d.headers@, "content-type"@))
}

/// Classifies a response: finds its `Content-Type` header (header names
/// compare case-insensitively) and maps it to a presentation kind.
pub fn response_content_kind(d: &ResponseDescriptor) -> (k: ContentKind)
    ensures
        k == spec_response_kind(*d),
{
    match find_header_value(&d.headers, "content-type") {
        None => classify(None),
        Some(v) => classify(Some(v.as_str())),
    }
}

} // verus!
