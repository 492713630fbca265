//! Serialization of body pairs as a JSON object.
//!
//! Keys appear in the order the pairs were given; a repeated key keeps
//! its first position and takes the last value, exactly as a standard
//! object constructor would. String content is escaped so the result is
//! always a well-formed JSON object.

use vstd::prelude::*;
use crate::kv::KvPair;
use crate::text::push_char;

verus! {

/// The hexadecimal digit characters, in value order.
pub open spec fn hex_char(d: nat) -> char {
    seq!['0', '1', '2', '3', '4', '5', '6', '7', '8', '9', 'a', 'b', 'c', 'd', 'e', 'f'][d as int]
}

/// JSON escaping of one character inside a quoted string: quote and
/// backslash are escaped, the common control characters get their short
/// forms, the remaining control characters a `\u00XX` form, and
/// everything else stands for itself.
pub open spec fn json_escape_char(c: char) -> Seq<char> {
    if c == '"' {
        seq!['\\', '"']
    } else if c == '\\' {
        seq!['\\', '\\']
    } else if c == '\n' {
        seq!['\\', 'n']
    } else if c == '\r' {
        seq!['\\', 'r']
    } else if c == '\t' {
        seq!['\\', 't']
    } else if (c as int) < 32 {
        seq!['\\', 'u', '0', '0', hex_char((c as int / 16) as nat), hex_char((c as int % 16) as nat)]
    } else {
        seq![c]
    }
}

/// JSON escaping of a whole character sequence.
pub open spec fn json_escape(s: Seq<char>) -> Seq<char>
    decreases s.len(),
{
    if s.len() == 0 {
        Seq::empty()
    } else {
        json_escape_char(s[0]) + json_escape(s.drop_first())
    }
}

/// The index of the first pair with the given key, or -1 when absent.
pub open spec fn find_key(acc: Seq<KvPair>, k: Seq<char>) -> int
    decreases acc.len(),
{
    if acc.len() == 0 {
        -1
    } else if acc[0].k@ == k {
        0
    } else {
        let r = find_key(acc.drop_first(), k);
        if r == -1 {
            -1
        } else {
            r + 1
        }
    }
}

/// Adds one pair to an accumulated object: a fresh key is appended, a
/// repeated key keeps its position and takes the new value.
pub open spec fn upsert(acc: Seq<KvPair>, p: KvPair) -> Seq<KvPair> {
    let i = find_key(acc, p.k@);
    if i == -1 {
        acc.push(p)
    } else {
        acc.update(i, KvPair { k: acc[i].k, v: p.v })
    }
}

/// The pair sequence as an object would store it: keys unique, first
/// occurrence order, last value wins.
pub open spec fn dedup_pairs(ps: Seq<KvPair>) -> Seq<KvPair>
    decreases ps.len(),
{
    if ps.len() == 0 {
        Seq::empty()
    } else {
        upsert(dedup_pairs(ps.drop_last()), ps.last())
    }
}

/// One `"key":"value"` member.
pub open spec fn json_member(p: KvPair) -> Seq<char> {
    seq!['"'] + json_escape(p.k@) + seq!['"', ':', '"'] + json_escape(p.v@) + seq!['"']
}

/// The members joined with commas, in order.
pub open spec fn json_members(ps: Seq<KvPair>) -> Seq<char>
    decreases ps.len(),
{
    if ps.len() == 0 {
        Seq::empty()
    } else if ps.len() == 1 {
        json_member(ps[0])
    } else {
        json_members(ps.drop_last()) + seq![','] + json_member(ps.last())
    }
}

/// A whole JSON object over already-deduplicated pairs.
pub open spec fn json_object(ps: Seq<KvPair>) -> Seq<char> {
    seq!['{'] + json_members(ps) + seq!['}']
}

/// The serialized POST body for a raw pair sequence.
pub open spec fn json_body(ps: Seq<KvPair>) -> Seq<char> {
    json_object(dedup_pairs(ps))
}

fn hex_nibble(d: u32) -> (c: char)
    requires
        d < 16,
    ensures
        c == hex_char(d as nat),
{
    match d {
        0 => '0',
        1 => '1',
        2 => '2',
        3 => '3',
        4 => '4',
        5 => '5',
        6 => '6',
        7 => '7',
        8 => '8',
        9 => '9',
        10 => 'a',
        11 => 'b',
        12 => 'c',
        13 => 'd',
        14 => 'e',
        _ => 'f',
    }
}

/// Appends the JSON escaping of `s` to `out`.
#[verifier::loop_isolation(false)]
fn escape_into(out: &mut String, s: &str)
    ensures
        final(out)@ == old(out)@ + json_escape(s@),
{
    proof {
        reveal_strlit("\\\"");
        reveal_strlit("\\\\");
        reveal_strlit("\\n");
        reveal_strlit("\\r");
        reveal_strlit("\\t");
        reveal_strlit("\\u00");
    }
    let n: usize = s.unicode_len();
    let mut i: usize = 0;
    proof {
        assert(s@.skip(0) =~= s@);
    }
    while i < n
        invariant
            n == s@.len(),
            i <= n,
            out@ + json_escape(s@.skip(i as int)) == old(out)@ + json_escape(s@),
        decreases n - i,
    {
        proof {
            assert(s@.skip(i as int).drop_first() =~= s@.skip(i + 1));
            assert(s@.skip(i as int)[0] == s@[i as int]);
        }
        let c = s.get_char(i);
        if c == '"' {
            out.append("\\\"");
            proof {
                assert("\\\""@ =~= json_escape_char(c));
            }
        } else if c == '\\' {
            out.append("\\\\");
            proof {
                assert("\\\\"@ =~= json_escape_char(c));
            }
        } else if c == '\n' {
            out.append("\\n");
            proof {
                assert("\\n"@ =~= json_escape_char(c));
            }
        } else if c == '\r' {
            out.append("\\r");
            proof {
                assert("\\r"@ =~= json_escape_char(c));
            }
        } else if c == '\t' {
            out.append("\\t");
            proof {
                assert("\\t"@ =~= json_escape_char(c));
            }
        } else if (c as u32) < 32 {
            let cv: u32 = c as u32;
            out.append("\\u00");
            push_char(out, hex_nibble(cv / 16));
            push_char(out, hex_nibble(cv % 16));
            proof {
                assert("\\u00"@ + seq![hex_char((cv / 16) as nat)] + seq![
                    hex_char((cv % 16) as nat),
                ] =~= json_escape_char(c));
            }
        } else {
            push_char(out, c);
            proof {
                assert(seq![c] =~= json_escape_char(c));
            }
        }
        i = i + 1;
        proof {
            assert(out@ + json_escape(s@.skip(i as int)) =~= old(out)@ + json_escape(s@));
        }
    }
    proof {
        assert(s@.skip(n as int) =~= Seq::<char>::empty());
        assert(final(out)@ =~= old(out)@ + json_escape(s@));
    }
}

proof fn lemma_find_key_none(acc: Seq<KvPair>, k: Seq<char>)
    requires
        forall|j: int| 0 <= j < acc.len() ==> acc[j].k@ != k,
    ensures
        find_key(acc, k) == -1,
    decreases acc.len(),
{
    if acc.len() > 0 {
        lemma_find_key_none(acc.drop_first(), k);
    }
}

proof fn lemma_find_key_at(acc: Seq<KvPair>, k: Seq<char>, i: int)
    requires
        0 <= i < acc.len(),
        acc[i].k@ == k,
        forall|j: int| 0 <= j < i ==> acc[j].k@ != k,
    ensures
        find_key(acc, k) == i,
    decreases i,
{
    if i > 0 {
        lemma_find_key_at(acc.drop_first(), k, i - 1);
    }
}

/// Folds the raw pairs into object form: unique keys, first occurrence
/// order, last value for a repeated key.
#[verifier::loop_isolation(false)]
fn dedup(pairs: &Vec<KvPair>) -> (d: Vec<KvPair>)
    ensures
        d@ == dedup_pairs(pairs@),
{
    let mut d: Vec<KvPair> = Vec::new();
    let n: usize = pairs.len();
    let mut i: usize = 0;
    while i < n
        invariant
            n == pairs@.len(),
            i <= n,
            d@ == dedup_pairs(pairs@.take(i as int)),
        decreases n - i,
    {
        let p = &pairs[i];
        let m: usize = d.len();
        let mut j: usize = 0;
        let mut found: bool = false;
        while j < m && !found
            invariant
                m == d@.len(),
                j <= m,
                found ==> j < m && d@[j as int].k@ == p.k@,
                forall|t: int| 0 <= t < j ==> d@[t].k@ != p.k@,
            decreases m - j + (if found { 0int } else { 1int }),
        {
            if d[j].k == p.k {
                found = true;
            } else {
                j = j + 1;
            }
        }
        let ghost dpre = d@;
        if found {
            proof {
                lemma_find_key_at(d@, p.k@, j as int);
            }
            let kept = d[j].k.clone();
            d.set(j, KvPair { k: kept, v: p.v.clone() });
            proof {
                assert(d@ =~= upsert(dpre, pairs@[i as int]));
            }
        } else {
            proof {
                lemma_find_key_none(d@, p.k@);
            }
            d.push(KvPair { k: p.k.clone(), v: p.v.clone() });
            proof {
                assert(d@ =~= upsert(dpre, pairs@[i as int]));
            }
        }
        i = i + 1;
        proof {
            assert(pairs@.take(i as int).drop_last() =~= pairs@.take(i - 1));
            assert(pairs@.take(i as int).last() == pairs@[i - 1]);
            assert(d@ == dedup_pairs(pairs@.take(i as int)));
        }
    }
    proof {
        assert(pairs@.take(n as int) =~= pairs@);
    }
    d
}

/// Serializes the body pairs as one JSON object string.
#[verifier::loop_isolation(false)]
pub fn render_json_body(pairs: &Vec<KvPair>) -> (r: String)
    ensures
        r@ == json_body(pairs@),
{
    proof {
        reveal_strlit("{");
        reveal_strlit("}");
        reveal_strlit(",");
        reveal_strlit("\":\"");
    }
    let d = dedup(pairs);
    let mut out = String::from_str("{");
    let n: usize = d.len();
    let mut i: usize = 0;
    while i < n
        invariant
            n == d@.len(),
            i <= n,
            out@ == seq!['{'] + json_members(d@.take(i as int)),
        decreases n - i,
    {
        if i > 0 {
            out.append(",");
        }
        push_char(&mut out, '"');
        escape_into(&mut out, d[i].k.as_str());
        out.append("\":\"");
        escape_into(&mut out, d[i].v.as_str());
        push_char(&mut out, '"');
        i = i + 1;
        proof {
            assert(d@.take(i as int).len() == i);
            assert(d@.take(i as int).drop_last() =~= d@.take(i - 1));
            assert(d@.take(i as int).last() == d@[i - 1]);
            if i == 1 {
                assert(d@.take(1)[0] == d@[0]);
            }
            assert(out@ =~= seq!['{'] + json_members(d@.take(i as int)));
        }
    }
    out.append("}");
    proof {
        assert(d@.take(n as int) =~= d@);
        assert(out@ =~= json_body(pairs@));
    }
    out
}

} // verus!
