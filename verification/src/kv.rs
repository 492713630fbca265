//! Body key/value pairs: a raw `key=value` token is split on its first
//! `=` only; a token with no `=` or an empty key is rejected outright.

use vstd::prelude::*;
use crate::error::HttpError;

verus! {

/// One body pair. Both fields are non-empty-key/any-value text produced
/// by splitting a raw token on its first `=`.
#[derive(Debug, Clone, PartialEq, Eq)]
pub struct KvPair {
    pub k: String,
    pub v: String,
}

/// Splits a character sequence at its first `=`: the part before it and
/// the part after it (later `=` characters stay in the value). `None`
/// when there is no `=` at all.
pub open spec fn kv_split(s: Seq<char>) -> Option<(Seq<char>, Seq<char>)>
    decreases s.len(),
{
    if s.len() == 0 {
        None
    } else if s[0] == '=' {
        Some((Seq::empty(), s.subrange(1, s.len() as int)))
    } else {
        match kv_split(s.drop_first()) {
            None => None,
            Some(kv) => Some((seq![s[0]] + kv.0, kv.1)),
        }
    }
}

proof fn lemma_kv_split_none(s: Seq<char>)
    requires
        forall|j: int| 0 <= j < s.len() ==> s[j] != '=',
    ensures
        kv_split(s) is None,
    decreases s.len(),
{
    if s.len() > 0 {
        lemma_kv_split_none(s.drop_first());
    }
}

proof fn lemma_kv_split_at(s: Seq<char>, i: int)
    requires
        0 <= i < s.len(),
        s[i] == '=',
        forall|j: int| 0 <= j < i ==> s[j] != '=',
    ensures
        kv_split(s) == Some((s.subrange(0, i), s.subrange(i + 1, s.len() as int))),
    decreases i,
{
    if i == 0 {
        assert(s.subrange(0, 0) =~= Seq::<char>::empty());
        assert(s.subrange(1, s.len() as int) =~= s.subrange(1, s.len() as int));
    } else {
        let t = s.drop_first();
        lemma_kv_split_at(t, i - 1);
        assert(seq![s[0]] + t.subrange(0, i - 1) =~= s.subrange(0, i));
        assert(t.subrange(i, t.len() as int) =~= s.subrange(i + 1, s.len() as int));
    }
}

/// Parses one raw body token.
///
/// The token must contain at least one `=`; the text before the first
/// `=` is the key and must be non-empty; everything after it, further
/// `=` characters included, is the value. Anything else is an
/// `InvalidKeyValuePair` construction error.
pub fn parse_kv_pair(s: &str) -> (r: Result<KvPair, HttpError>)
    ensures
        r is Ok <==> (kv_split(s@) matches Some(kv) && kv.0.len() > 0),
        r matches Ok(p) ==> kv_split(s@) == Some((p.k@, p.v@)),
        r matches Err(e) ==> e matches HttpError::InvalidKeyValuePair { input } && input@ == s@,
{
    let n: usize = s.unicode_len();
    let mut i: usize = 0;
    while i < n
        invariant
            n == s@.len(),
            i <= n,
            forall|j: int| 0 <= j < i ==> s@[j] != '=',
        decreases n - i,
    {
        if s.get_char(i) == '=' {
            proof {
                lemma_kv_split_at(s@, i as int);
            }
            if i == 0 {
                return Err(HttpError::InvalidKeyValuePair { input: s.to_owned() });
            }
            let k = String::from_str(s.substring_char(0, i));
            let v = String::from_str(s.substring_char(i + 1, n));
            return Ok(KvPair { k, v });
        }
        i = i + 1;
    }
    proof {
        lemma_kv_split_none(s@);
    }
    Err(HttpError::InvalidKeyValuePair { input: s.to_owned() })
}

impl core::str::FromStr for KvPair {
    type Err = HttpError;

    fn from_str(s: &str) -> Result<KvPair, HttpError> {
        parse_kv_pair(s)
    }
}

} // verus!
