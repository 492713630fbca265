//! Verified text helpers shared across the crate: building strings one
//! character at a time, decimal formatting, and ASCII-case-insensitive
//! comparison.

use vstd::prelude::*;

verus! {

/// Relies on `String::push`: appends exactly the given character.
#[verifier::external_body]
pub(crate) fn push_char(s: &mut String, c: char)
    ensures
        final(s)@ == old(s)@ + seq![c],
{
    s.push(c)
}

/// The decimal digit characters, in value order.
pub open spec fn digit_char(d: nat) -> char {
    seq!['0', '1', '2', '3', '4', '5', '6', '7', '8', '9'][d as int]
}

/// Decimal rendering of a natural number, most significant digit first.
pub open spec fn dec_digits(n: nat) -> Seq<char>
    decreases n,
{
    if n < 10 {
        seq![digit_char(n)]
    } else {
        dec_digits(n / 10).push(digit_char(n % 10))
    }
}

fn digit_of(d: u64) -> (c: char)
    requires
        d < 10,
    ensures
        c == digit_char(d as nat),
{
    match d {
        0 => '0',
        1 => '1',
        2 => '2',
        3 => '3',
        4 => '4',
        5 => '5',
        6 => '6',
        7 => '7',
        8 => '8',
        _ => '9',
    }
}

/// Renders an unsigned number in decimal, without padding or sign.
pub fn u64_to_dec(n: u64) -> (r: String)
    ensures
        r@ == dec_digits(n as nat),
    decreases n,
{
    if n < 10 {
        let mut s = String::new();
        push_char(&mut s, digit_of(n));
        proof {
            assert(s@ =~= dec_digits(n as nat));
        }
        s
    } else {
        let mut s = u64_to_dec(n / 10);
        push_char(&mut s, digit_of(n % 10));
        proof {
            assert(s@ =~= dec_digits(n as nat));
        }
        s
    }
}

/// Decimal rendering of an integer, `-` first when negative.
pub open spec fn dec_int(v: int) -> Seq<char> {
    if v < 0 {
        seq!['-'] + dec_digits((-v) as nat)
    } else {
        dec_digits(v as nat)
    }
}

/// Renders a 32-bit signed number in decimal.
pub fn i32_to_dec(n: i32) -> (r: String)
    ensures
        r@ == dec_int(n as int),
{
    if n >= 0 {
        u64_to_dec(n as u64)
    } else {
        proof {
            reveal_strlit("-");
        }
        let m: i64 = n as i64;
        let mag: u64 = (-m) as u64;
        let mut s = String::from_str("-");
        let digits = u64_to_dec(mag);
        s.append(digits.as_str());
        s
    }
}

/// The character's code point, with ASCII capital letters folded to
/// their lower-case counterparts.
pub open spec fn lower_code(c: char) -> int {
    if 65 <= c as int && c as int <= 90 {
        c as int + 32
    } else {
        c as int
    }
}

/// Character equality up to ASCII case.
pub open spec fn char_eq_nocase(a: char, b: char) -> bool {
    lower_code(a) == lower_code(b)
}

/// Sequence equality up to ASCII case.
pub open spec fn seq_eq_nocase(a: Seq<char>, b: Seq<char>) -> bool {
    a.len() == b.len() && (forall|i: int| 0 <= i < a.len() ==> char_eq_nocase(a[i], b[i]))
}

fn chars_eq_nocase(a: char, b: char) -> (r: bool)
    ensures
        r == char_eq_nocase(a, b),
{
    let av: u32 = a as u32;
    let bv: u32 = b as u32;
    let af: u32 = if av >= 65 && av <= 90 { av + 32 } else { av };
    let bf: u32 = if bv >= 65 && bv <= 90 { bv + 32 } else { bv };
    af == bf
}

/// Compares two strings for exact equality, character by character.
pub fn str_eq(a: &str, b: &str) -> (r: bool)
    ensures
        r == (a@ == b@),
{
    let an: usize = a.unicode_len();
    let bn: usize = b.unicode_len();
    if an != bn {
        return false;
    }
    let mut i: usize = 0;
    while i < an
        invariant
            an == a@.len(),
            bn == b@.len(),
            an == bn,
            i <= an,
            forall|j: int| 0 <= j < i ==> a@[j] == b@[j],
        decreases an - i,
    {
        if a.get_char(i) != b.get_char(i) {
            return false;
        }
        i = i + 1;
    }
    proof {
        assert(a@ =~= b@);
    }
    true
}

/// Compares two strings for equality up to ASCII case, character by
/// character.
pub fn str_eq_nocase(a: &str, b: &str) -> (r: bool)
    ensures
        r == seq_eq_nocase(a@, b@),
{
    let an: usize = a.unicode_len();
    let bn: usize = b.unicode_len();
    if an != bn {
        return false;
    }
    let mut i: usize = 0;
    while i < an
        invariant
            an == a@.len(),
            bn == b@.len(),
            an == bn,
            i <= an,
            forall|j: int| 0 <= j < i ==> char_eq_nocase(a@[j], b@[j]),
        decreases an - i,
    {
        if !chars_eq_nocase(a.get_char(i), b.get_char(i)) {
            return false;
        }
        i = i + 1;
    }
    true
}

} // verus!
