//! Formatting of parsed text fragments that are either borrowed from
//! the original input or owned copies made while decoding.

use vstd::prelude::*;

verus! {

/// A parsed text fragment, tagged by whether it still points into the
/// original input or had to be copied (for example, percent-decoded).
#[derive(Debug, Clone, PartialEq, Eq)]
pub enum ParsedText {
    Borrowed(String),
    Owned(String),
}

/// The tagged rendering of one fragment.
pub open spec fn spec_format_cow(t: ParsedText) -> Seq<char> {
    match t {
        ParsedText::Borrowed(v) => "Borrowed -- "@ + v@,
        ParsedText::Owned(v) => "Owned -- "@ + v@,
    }
}

/// Renders one fragment with its ownership tag.
pub fn format_cow(cow: ParsedText) -> (r: String)
    ensures
        r@ == spec_format_cow(cow),
{
    match cow {
        ParsedText::Borrowed(v) => String::from_str("Borrowed -- ").concat(v.as_str()),
        ParsedText::Owned(v) => String::from_str("Owned -- ").concat(v.as_str()),
    }
}

/// Renders one key/value pair of parsed fragments.
pub fn format_kv_pair(kv_pair: (ParsedText, ParsedText)) -> (r: String)
    ensures
        r@ == "key: "@ + spec_format_cow(kv_pair.0) + ", value: "@ + spec_format_cow(kv_pair.1),
{
    let (k, v) = kv_pair;
    let mut out = String::from_str("key: ");
    let fk = format_cow(k);
    out.append(fk.as_str());
    out.append(", value: ");
    let fv = format_cow(v);
    out.append(fv.as_str());
    out
}

} // verus!
