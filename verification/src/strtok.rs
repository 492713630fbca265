//! A verified `strtok`: take the text up to the first delimiter and
//! advance the caller's slice past it.

use vstd::prelude::*;

verus! {

/// The index of the first occurrence of `c`, or the length when `c`
/// does not occur.
pub open spec fn first_index_of(s: Seq<char>, c: char) -> int
    decreases s.len(),
{
    if s.len() == 0 {
        0
    } else if s[0] == c {
        0
    } else {
        1 + first_index_of(s.drop_first(), c)
    }
}

proof fn lemma_first_index_at(s: Seq<char>, c: char, i: int)
    requires
        0 <= i <= s.len(),
        forall|j: int| 0 <= j < i ==> s[j] != c,
        i < s.len() ==> s[i] == c,
    ensures
        first_index_of(s, c) == i,
    decreases i,
{
    if i > 0 {
        lemma_first_index_at(s.drop_first(), c, i - 1);
    }
}

/// Splits off the text before the first `delimiter` and leaves `s`
/// pointing just past it; when the delimiter does not occur, the whole
/// text is returned and `s` is left empty.
#[verifier::loop_isolation(false)]
pub fn strtok<'a, 'b>(s: &'a mut &'b str, delimiter: char) -> (prefix: &'b str)
    ensures
        ({
            let ix = first_index_of(old(s)@, delimiter);
            if ix < old(s)@.len() {
                prefix@ == old(s)@.subrange(0, ix) && final(s)@ == old(s)@.subrange(
                    ix + 1,
                    old(s)@.len() as int,
                )
            } else {
                prefix@ == old(s)@ && final(s)@.len() == 0
            }
        }),
{
    let n: usize = s.unicode_len();
    let mut i: usize = 0;
    while i < n
        invariant
            s@ == old(s)@,
            n == s@.len(),
            i <= n,
            forall|j: int| 0 <= j < i ==> s@[j] != delimiter,
        decreases n - i,
    {
        if s.get_char(i) == delimiter {
            proof {
                lemma_first_index_at(s@, delimiter, i as int);
            }
            let prefix = s.substring_char(0, i);
            let suffix = s.substring_char(i + 1, n);
            *s = suffix;
            return prefix;
        }
        i = i + 1;
    }
    proof {
        lemma_first_index_at(s@, delimiter, n as int);
    }
    let prefix = *s;
    *s = "";
    proof {
        reveal_strlit("");
    }
    prefix
}

} // verus!
