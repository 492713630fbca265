//! The response renderer: status line, header lines in arrival order,
//! then the body, formatted according to its content kind.

use vstd::prelude::*;
use crate::content::{spec_response_kind, response_content_kind, ContentKind};
use crate::response::ResponseDescriptor;
use crate::text::{dec_digits, push_char, u64_to_dec};

verus! {

/// What the terminal-escaped syntax highlighting of the given text, in
/// the language named by the extension, looks like.
pub uninterp spec fn highlighted(text: Seq<char>, ext: Seq<char>) -> Seq<char>;

/// Relies on syntect's `SyntaxSet::load_defaults_newlines`,
/// `ThemeSet::load_defaults`, `find_syntax_by_extension`,
/// `HighlightLines::highlight_line` and `as_24_bit_terminal_escaped`:
/// the embedded default syntaxes cover the `json` and `html`
/// extensions, and for a fixed extension the escaped output is a
/// function of the input text alone.
#[verifier::external_body]
fn highlight_source(s: &str, ext: &str) -> (r: String)
    requires
        ext@ == "json"@ || ext@ == "html"@,
    ensures
        r@ == highlighted(s@, ext@),
{
    let ps = syntect::parsing::SyntaxSet::load_defaults_newlines();
    let ts = syntect::highlighting::ThemeSet::load_defaults();
    let syntax = ps.find_syntax_by_extension(ext).unwrap();
    let mut h = syntect::easy::HighlightLines::new(syntax, &ts.themes["base16-ocean.dark"]);
    let mut out = String::new();
    for line in syntect::util::LinesWithEndings::from(s) {
        let ranges = h.highlight_line(line, &ps).unwrap_or_default();
        out.push_str(&syntect::util::as_24_bit_terminal_escaped(&ranges[..], true));
    }
    out
}

/// One rendered header line: `name: value` and a line break.
pub open spec fn spec_header_line(h: (String, String)) -> Seq<char> {
    h.0@ + seq![':', ' '] + h.1@ + seq!['\n']
}

/// All header lines, in arrival order.
pub open spec fn spec_header_lines(hs: Seq<(String, String)>) -> Seq<char>
    decreases hs.len(),
{
    if hs.len() == 0 {
        Seq::empty()
    } else {
        spec_header_lines(hs.drop_last()) + spec_header_line(hs.last())
    }
}

/// The rendered status line and header block: `version code text`, a
/// blank line, the header lines, and another blank line.
pub open spec fn spec_render_head(d: ResponseDescriptor) -> Seq<char> {
    d.http_version@ + seq![' '] + dec_digits(d.status_code as nat) + seq![' '] + d.status_text@
        + seq!['\n', '\n'] + spec_header_lines(d.headers@) + seq!['\n']
}

/// The rendered body: highlighted for JSON and HTML content, emitted
/// verbatim (with a closing line break) for everything else.
pub open spec fn spec_render_body(d: ResponseDescriptor) -> Seq<char> {
    match spec_response_kind(d) {
        ContentKind::Json => highlighted(d.body_text@, "json"@),
        ContentKind::Html => highlighted(d.body_text@, "html"@),
        ContentKind::Other => d.body_text@ + seq!['\n'],
    }
}

/// The complete rendering of a response.
pub open spec fn spec_render(d: ResponseDescriptor) -> Seq<char> {
    spec_render_head(d) + spec_render_body(d)
}

/// Renders the status line and headers: `version code text`, a blank
/// line, one `name: value` line per header in arrival order, and a
/// closing blank line.
#[verifier::loop_isolation(false)]
pub fn render_head(d: &ResponseDescriptor) -> (r: String)
    ensures
        r@ == spec_render_head(*d),
{
    proof {
        reveal_strlit("\n\n");
        reveal_strlit(": ");
        reveal_strlit("\n");
    }
    let mut out = String::new();
    out.append(d.http_version.as_str());
    push_char(&mut out, ' ');
    let code = u64_to_dec(d.status_code as u64);
    out.append(code.as_str());
    push_char(&mut out, ' ');
    out.append(d.status_text.as_str());
    out.append("\n\n");
    let ghost status_part = out@;
    let n: usize = d.headers.len();
    let mut i: usize = 0;
    while i < n
        invariant
            n == d.headers@.len(),
            i <= n,
            out@ == status_part + spec_header_lines(d.headers@.take(i as int)),
        decreases n - i,
    {
        out.append(d.headers[i].0.as_str());
        out.append(": ");
        out.append(d.headers[i].1.as_str());
        out.append("\n");
        i = i + 1;
        proof {
            assert(d.headers@.take(i as int).drop_last() =~= d.headers@.take(i - 1));
            assert(d.headers@.take(i as int).last() == d.headers@[i - 1]);
            assert(out@ =~= status_part + spec_header_lines(d.headers@.take(i as int)));
        }
    }
    out.append("\n");
    proof {
        assert(d.headers@.take(n as int) =~= d.headers@);
        assert(out@ =~= spec_render_head(*d));
    }
    out
}

/// Renders the body alone: JSON and HTML bodies go through the
/// highlighting collaborator and its output is emitted verbatim; any
/// other body is emitted unmodified, closed by a line break.
pub fn render_body(d: &ResponseDescriptor) -> (r: String)
    ensures
        r@ == spec_render_body(*d),
{
    proof {
        reveal_strlit("\n");
    }
    match response_content_kind(d) {
        ContentKind::Json => highlight_source(d.body_text.as_str(), "json"),
        ContentKind::Html => highlight_source(d.body_text.as_str(), "html"),
        ContentKind::Other => {
            let mut out = d.body_text.clone();
            out.append("\n");
            proof {
                assert(out@ =~= spec_render_body(*d));
            }
            out
        },
    }
}

/// Renders a whole response: head, then body. Rendering never fails on
/// a well-formed descriptor and performs no network activity.
pub fn render(d: &ResponseDescriptor) -> (r: String)
    ensures
        r@ == spec_render(*d),
{
    let head = render_head(d);
    let body = render_body(d);
    head.concat(body.as_str())
}

/// Rendering is idempotent: two renderings of the same response
/// descriptor are character-for-character identical, because each one
/// equals the single specified rendering of that descriptor.
pub proof fn lemma_render_deterministic(
    d1: ResponseDescriptor,
    d2: ResponseDescriptor,
    o1: Seq<char>,
    o2: Seq<char>,
)
    requires
        d1 == d2,
        o1 == spec_render(d1),
        o2 == spec_render(d2),
    ensures
        o1 == o2,
{
}

} // verus!
