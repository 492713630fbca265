//! Line search: configuration parsing, splitting text into lines, and
//! case-sensitive / case-insensitive substring search over those lines.

use vstd::prelude::*;

verus! {

/// A search job: what to look for and in which file.
pub struct Config {
    pub query: String,
    pub file_path: String,
}

impl Config {
    /// Reads the query and file path out of the argument list (program
    /// name first); fails when either is missing.
    pub fn build(args: &[String]) -> (r: Result<Config, &'static str>)
        ensures
            r is Ok <==> args@.len() >= 3,
            r matches Ok(c) ==> c.query@ == args@[1]@ && c.file_path@ == args@[2]@,
            r matches Err(e) ==> e@ == "not enough arguments"@,
    {
        if args.len() < 3 {
            return Err("not enough arguments");
        }
        let query = args[1].clone();
        let file_path = args[2].clone();
        Ok(Config { query, file_path })
    }
}

/// The index of the first line break in the sequence, or its length
/// when there is none.
pub open spec fn first_nl(s: Seq<char>) -> int
    decreases s.len(),
{
    if s.len() == 0 {
        0
    } else if s[0] == '\n' {
        0
    } else {
        1 + first_nl(s.drop_first())
    }
}

proof fn lemma_first_nl_bounds(s: Seq<char>)
    ensures
        0 <= first_nl(s) <= s.len(),
    decreases s.len(),
{
    if s.len() > 0 && s[0] != '\n' {
        lemma_first_nl_bounds(s.drop_first());
    }
}

proof fn lemma_first_nl_at(s: Seq<char>, i: int)
    requires
        0 <= i <= s.len(),
        forall|j: int| 0 <= j < i ==> s[j] != '\n',
        i < s.len() ==> s[i] == '\n',
        i == s.len() ==> forall|j: int| 0 <= j < s.len() ==> s[j] != '\n',
    ensures
        first_nl(s) == i,
    decreases i,
{
    if i > 0 {
        lemma_first_nl_at(s.drop_first(), i - 1);
    }
}

/// A line with a trailing carriage return (from a `\r\n` ending)
/// removed.
pub open spec fn strip_cr(l: Seq<char>) -> Seq<char> {
    if l.len() > 0 && l.last() == '\r' {
        l.drop_last()
    } else {
        l
    }
}

/// The text split into lines: line endings are `\n` or `\r\n`, and a
/// final line ending is optional.
pub open spec fn spec_lines(s: Seq<char>) -> Seq<Seq<char>>
    decreases s.len(),
    via spec_lines_decreases
{
    if s.len() == 0 {
        Seq::empty()
    } else {
        let i = first_nl(s);
        if i == s.len() {
            seq![s]
        } else {
            seq![strip_cr(s.subrange(0, i))] + spec_lines(s.subrange(i + 1, s.len() as int))
        }
    }
}

#[via_fn]
proof fn spec_lines_decreases(s: Seq<char>) {
    lemma_first_nl_bounds(s);
}

/// Splits text into its lines, as views into the original text.
#[verifier::loop_isolation(false)]
pub fn split_lines<'a>(contents: &'a str) -> (r: Vec<&'a str>)
    ensures
        r@.map_values(|l: &str| l@) == spec_lines(contents@),
{
    let n: usize = contents.unicode_len();
    let mut r: Vec<&'a str> = Vec::new();
    let mut start: usize = 0;
    let mut i: usize = 0;
    proof {
        assert(contents@.skip(0) =~= contents@);
        assert(r@.map_values(|l: &str| l@) =~= Seq::<Seq<char>>::empty());
    }
    while i < n
        invariant
            n == contents@.len(),
            start <= i <= n,
            forall|j: int| start <= j < i ==> contents@[j] != '\n',
            r@.map_values(|l: &str| l@) + spec_lines(contents@.skip(start as int)) == spec_lines(
                contents@,
            ),
        decreases n - i,
    {
        if contents.get_char(i) == '\n' {
            let ghost tail = contents@.skip(start as int);
            proof {
                lemma_first_nl_at(tail, i - start);
                assert(tail.subrange(i - start + 1, tail.len() as int) =~= contents@.skip(i + 1));
            }
            let line = if i > start && contents.get_char(i - 1) == '\r' {
                contents.substring_char(start, i - 1)
            } else {
                contents.substring_char(start, i)
            };
            proof {
                assert(tail.subrange(0, i - start) =~= contents@.subrange(
                    start as int,
                    i as int,
                ));
                assert(line@ =~= strip_cr(tail.subrange(0, i - start)));
            }
            r.push(line);
            proof {
                assert(r@.map_values(|l: &str| l@) =~= r@.drop_last().map_values(|l: &str| l@)
                    .push(line@));
            }
            start = i + 1;
        }
        i = i + 1;
    }
    if start < n {
        let ghost tail = contents@.skip(start as int);
        proof {
            lemma_first_nl_at(tail, tail.len() as int);
        }
        let line = contents.substring_char(start, n);
        proof {
            assert(line@ =~= tail);
        }
        r.push(line);
        proof {
            assert(r@.map_values(|l: &str| l@) =~= r@.drop_last().map_values(|l: &str| l@).push(
                line@,
            ));
            assert(r@.map_values(|l: &str| l@) =~= spec_lines(contents@));
        }
    } else {
        proof {
            assert(contents@.skip(start as int) =~= Seq::<char>::empty());
            assert(r@.map_values(|l: &str| l@) =~= spec_lines(contents@));
        }
    }
    r
}

/// Whether `sub` occurs contiguously inside `s`.
pub open spec fn spec_contains(s: Seq<char>, sub: Seq<char>) -> bool {
    exists|i: int| 0 <= i && i + sub.len() <= s.len() && #[trigger] s.subrange(i, i + sub.len()) == sub
}

/// Relies on `str::contains` with a string pattern: true exactly when
/// the pattern occurs as a substring.
#[verifier::external_body]
fn str_contains(s: &str, sub: &str) -> (r: bool)
    ensures
        r == spec_contains(s@, sub@),
{
    s.contains(sub)
}

/// What `str::to_lowercase` maps the text to; a function of the
/// characters alone.
pub uninterp spec fn lower_of(s: Seq<char>) -> Seq<char>;

/// Relies on `str::to_lowercase`: the result depends on the characters
/// alone, not on any locale.
#[verifier::external_body]
fn lowercase(s: &str) -> (r: String)
    ensures
        r@ == lower_of(s@),
{
    s.to_lowercase()
}

/// The lines that contain the query, in order.
pub open spec fn spec_matching(lines: Seq<Seq<char>>, q: Seq<char>) -> Seq<Seq<char>>
    decreases lines.len(),
{
    if lines.len() == 0 {
        Seq::empty()
    } else {
        spec_matching(lines.drop_last(), q) + (if spec_contains(lines.last(), q) {
            seq![lines.last()]
        } else {
            Seq::empty()
        })
    }
}

/// The lines whose lower-cased text contains the lower-cased query, in
/// order.
pub open spec fn spec_matching_nocase(lines: Seq<Seq<char>>, q: Seq<char>) -> Seq<Seq<char>>
    decreases lines.len(),
{
    if lines.len() == 0 {
        Seq::empty()
    } else {
        spec_matching_nocase(lines.drop_last(), q) + (if spec_contains(
            lower_of(lines.last()),
            lower_of(q),
        ) {
            seq![lines.last()]
        } else {
            Seq::empty()
        })
    }
}

/// Returns, in order, exactly the lines of `contents` that contain
/// `query`.
#[verifier::loop_isolation(false)]
pub fn search<'a>(query: &str, contents: &'a str) -> (r: Vec<&'a str>)
    ensures
        r@.map_values(|l: &str| l@) == spec_matching(spec_lines(contents@), query@),
{
    let lines = split_lines(contents);
    let ghost all = spec_lines(contents@);
    let mut r: Vec<&'a str> = Vec::new();
    let n: usize = lines.len();
    let mut i: usize = 0;
    while i < n
        invariant
            n == lines@.len(),
            i <= n,
            r@.map_values(|l: &str| l@) == spec_matching(all.take(i as int), query@),
        decreases n - i,
    {
        let line = lines[i];
        proof {
            assert(all.take(i + 1).drop_last() =~= all.take(i as int));
            assert(all.take(i + 1).last() == all[i as int]);
            assert(line@ == all[i as int]);
        }
        if str_contains(line, query) {
            r.push(line);
            proof {
                assert(r@.map_values(|l: &str| l@) =~= r@.drop_last().map_values(|l: &str| l@)
                    .push(line@));
            }
        }
        i = i + 1;
    }
    proof {
        assert(all.take(n as int) =~= all);
    }
    r
}

/// Returns, in order, exactly the lines of `contents` that contain
/// `query` when both are compared in lower case.
#[verifier::loop_isolation(false)]
pub fn search_case_insensitive<'a>(query: &str, contents: &'a str) -> (r: Vec<&'a str>)
    ensures
        r@.map_values(|l: &str| l@) == spec_matching_nocase(spec_lines(contents@), query@),
{
    let query_lower = lowercase(query);
    let lines = split_lines(contents);
    let ghost all = spec_lines(contents@);
    let mut r: Vec<&'a str> = Vec::new();
    let n: usize = lines.len();
    let mut i: usize = 0;
    while i < n
        invariant
            n == lines@.len(),
            i <= n,
            query_lower@ == lower_of(query@),
            r@.map_values(|l: &str| l@) == spec_matching_nocase(all.take(i as int), query@),
        decreases n - i,
    {
        let line = lines[i];
        proof {
            assert(all.take(i + 1).drop_last() =~= all.take(i as int));
            assert(all.take(i + 1).last() == all[i as int]);
            assert(line@ == all[i as int]);
        }
        let line_lower = lowercase(line);
        if str_contains(line_lower.as_str(), query_lower.as_str()) {
            r.push(line);
            proof {
                assert(r@.map_values(|l: &str| l@) =~= r@.drop_last().map_values(|l: &str| l@)
                    .push(line@));
            }
        }
        i = i + 1;
    }
    proof {
        assert(all.take(n as int) =~= all);
    }
    r
}

} // verus!
