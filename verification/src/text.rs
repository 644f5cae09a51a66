//! Small text helpers shared by the lexer, the parser and the lowerer.
//! Strings are modelled by their `Seq<char>` views.

use vstd::prelude::*;

verus! {

/// Relies on str::chars: yields exactly the characters of the string, in order.
#[verifier::external_body]
pub fn str_chars(s: &str) -> (v: Vec<char>)
    ensures
        v@ == s@,
{
    s.chars().collect()
}

/// Relies on String::from_iter for char: the resulting string holds exactly
/// the given characters, in order.
#[verifier::external_body]
pub fn chars_string(cs: &[char]) -> (s: String)
    ensures
        s@ == cs@,
{
    cs.iter().collect()
}

/// String equality on views, via owned copies.
pub fn str_eq(a: &str, b: &str) -> (r: bool)
    ensures
        r == (a@ == b@),
{
    let x: String = a.to_owned();
    let y: String = b.to_owned();
    x == y
}

/// Equality of two character slices.
pub fn chars_eq(a: &[char], b: &[char]) -> (r: bool)
    ensures
        r == (a@ == b@),
{
    if a.len() != b.len() {
        assert(a@ != b@) by {
            assert(a@.len() != b@.len());
        }
        return false;
    }
    let n: usize = a.len();
    let mut i: usize = 0;
    while i < n
        invariant
            n == a@.len() && n == b@.len(),
            i <= n,
            forall|j: int| 0 <= j < i ==> a@[j] == b@[j],
        decreases n - i,
    {
        if a[i] != b[i] {
            return false;
        }
        i = i + 1;
    }
    assert(a@ =~= b@);
    true
}

/// Whether a character slice equals the view of a string literal.
pub fn chars_eq_str(a: &[char], lit: &str) -> (r: bool)
    ensures
        r == (a@ == lit@),
{
    let l = str_chars(lit);
    chars_eq(a, l.as_slice())
}

/// ASCII whitespace, as the lexer and input trimming understand it.
pub open spec fn spec_is_space(c: char) -> bool {
    c == ' ' || c == '\t' || c == '\n' || c == '\r' || c == '\u{c}'
}

pub fn is_space(c: char) -> (r: bool)
    ensures
        r == spec_is_space(c),
{
    c == ' ' || c == '\t' || c == '\n' || c == '\r' || c == '\u{c}'
}

/// A decimal digit's value, or `None` for any other character.
pub open spec fn spec_digit(c: char) -> Option<int> {
    if '0' <= c && c <= '9' {
        Some(c as int - '0' as int)
    } else {
        None
    }
}

/// The numeric value of a non-empty, all-digit character sequence.
pub open spec fn spec_digits_val(s: Seq<char>) -> Option<int>
    decreases s.len(),
{
    if s.len() == 0 {
        None
    } else if s.len() == 1 {
        spec_digit(s[0])
    } else {
        match (spec_digits_val(s.drop_last()), spec_digit(s.last())) {
            (Some(v), Some(d)) => Some(v * 10 + d),
            _ => None,
        }
    }
}

pub proof fn lemma_digits_val_nonneg(s: Seq<char>)
    requires
        spec_digits_val(s) is Some,
    ensures
        spec_digits_val(s)->0 >= 0,
    decreases s.len(),
{
    if s.len() > 1 {
        lemma_digits_val_nonneg(s.drop_last());
    }
}

/// A defined digit value never shrinks as the sequence grows.
pub proof fn lemma_digits_val_prefix(s: Seq<char>, i: int)
    requires
        1 <= i <= s.len(),
        spec_digits_val(s) is Some,
    ensures
        spec_digits_val(s.take(i)) is Some,
        0 <= spec_digits_val(s.take(i))->0 <= spec_digits_val(s)->0,
    decreases s.len() - i,
{
    if i == s.len() {
        assert(s.take(i) =~= s);
        lemma_digits_val_nonneg(s);
    } else {
        lemma_digits_val_prefix(s, i + 1);
        let t = s.take(i + 1);
        assert(t.drop_last() =~= s.take(i));
        assert(t.last() == s[i]);
        assert(t.len() == i + 1);
        if i + 1 == 1 {
            assert(spec_digits_val(t) == spec_digit(t[0]));
            assert(t[0] == s[0]);
            assert(s.take(1).len() == 1);
        }
        lemma_digits_val_nonneg(s.take(i + 1));
        if spec_digits_val(s.take(i)) is Some {
            lemma_digits_val_nonneg(s.take(i));
        }
    }
}

/// The signed 32-bit integer a character sequence denotes: an optional
/// sign, then decimal digits; `None` when malformed or out of range.
pub open spec fn spec_parse_i32(s: Seq<char>) -> Option<i32> {
    let (neg, digits) = if s.len() > 0 && s[0] == '-' {
        (true, s.drop_first())
    } else if s.len() > 0 && s[0] == '+' {
        (false, s.drop_first())
    } else {
        (false, s)
    };
    match spec_digits_val(digits) {
        Some(v) => {
            let sv: int = if neg { -v } else { v };
            if i32::MIN <= sv <= i32::MAX {
                Some(sv as i32)
            } else {
                None
            }
        }
        None => None,
    }
}

/// Parse an all-digit slice into its value, capped detection: `None` when
/// any character is not a digit or the value exceeds `bound`.
fn parse_digits_bounded(s: &[char], bound: u64) -> (r: Option<u64>)
    requires
        bound <= 0x8000_0000,
    ensures
        match spec_digits_val(s@) {
            Some(v) => if v <= bound { r == Some(v as u64) } else { r is None },
            None => r is None,
        },
        r matches Some(u) ==> u <= bound,
{
    let n: usize = s.len();
    if n == 0 {
        return None;
    }
    let mut acc: u64 = 0;
    let mut i: usize = 0;
    while i < n
        invariant
            n == s@.len(),
            0 < n,
            i <= n,
            bound <= 0x8000_0000,
            i == 0 ==> acc == 0,
            i > 0 ==> spec_digits_val(s@.take(i as int)) == Some(acc as int),
            acc <= bound,
        decreases n - i,
    {
        let c = s[i];
        if !('0' <= c && c <= '9') {
            proof {
                if spec_digits_val(s@) is Some {
                    lemma_digits_val_prefix(s@, i + 1);
                    let t = s@.take(i + 1);
                    assert(t.last() == s@[i as int]);
                    if t.len() == 1 {
                        assert(spec_digits_val(t) == spec_digit(t[0]));
                    }
                    assert(spec_digits_val(t) is None);
                }
            }
            return None;
        }
        let d: u64 = (c as u32 as u64) - 48;
        proof {
            let t = s@.take(i + 1);
            assert(t.last() == s@[i as int]);
            assert(t.drop_last() =~= s@.take(i as int));
            assert(spec_digit(s@[i as int]) == Some(d as int));
        }
        let next: u64 = acc * 10 + d;
        if next > bound {
            proof {
                if spec_digits_val(s@) is Some {
                    lemma_digits_val_prefix(s@, i + 1);
                }
            }
            return None;
        }
        acc = next;
        i = i + 1;
    }
    proof {
        assert(s@.take(n as int) =~= s@);
    }
    Some(acc)
}

/// Parse a character slice as a signed 32-bit integer.
pub fn parse_i32_chars(s: &[char]) -> (r: Option<i32>)
    ensures
        r == spec_parse_i32(s@),
{
    let n: usize = s.len();
    if n > 0 && s[0] == '-' {
        let rest = vstd::slice::slice_subrange(s, 1, n);
        assert(rest@ =~= s@.drop_first());
        proof {
            if spec_digits_val(rest@) is Some {
                lemma_digits_val_nonneg(rest@);
            }
        }
        match parse_digits_bounded(rest, 0x8000_0000) {
            Some(v) => {
                if v == 0x8000_0000 {
                    Some(i32::MIN)
                } else {
                    Some(-(v as i32))
                }
            }
            None => None,
        }
    } else if n > 0 && s[0] == '+' {
        let rest = vstd::slice::slice_subrange(s, 1, n);
        assert(rest@ =~= s@.drop_first());
        proof {
            if spec_digits_val(rest@) is Some {
                lemma_digits_val_nonneg(rest@);
            }
        }
        match parse_digits_bounded(rest, 0x7FFF_FFFF) {
            Some(v) => Some(v as i32),
            None => None,
        }
    } else {
        proof {
            if spec_digits_val(s@) is Some {
                lemma_digits_val_nonneg(s@);
            }
        }
        match parse_digits_bounded(s, 0x7FFF_FFFF) {
            Some(v) => Some(v as i32),
            None => None,
        }
    }
}

/// The slice with ASCII whitespace removed from both ends.
pub open spec fn spec_trim(s: Seq<char>) -> Seq<char>
    decreases s.len(),
{
    if s.len() > 0 && spec_is_space(s[0]) {
        spec_trim(s.drop_first())
    } else if s.len() > 0 && spec_is_space(s.last()) {
        spec_trim(s.drop_last())
    } else {
        s
    }
}

/// Parse a slice as an `i32` after trimming whitespace from both ends.
pub fn parse_i32_trimmed(s: &[char]) -> (r: Option<i32>)
    ensures
        r == spec_parse_i32(spec_trim(s@)),
{
    let mut lo: usize = 0;
    let mut hi: usize = s.len();
    assert(s@.subrange(0, s@.len() as int) =~= s@);
    while lo < hi && is_space(s[lo])
        invariant
            lo <= hi <= s@.len(),
            spec_trim(s@) == spec_trim(s@.subrange(lo as int, hi as int)),
            hi == s@.len(),
        decreases hi - lo,
    {
        proof {
            let cur = s@.subrange(lo as int, hi as int);
            assert(cur.drop_first() =~= s@.subrange(lo as int + 1, hi as int));
        }
        lo = lo + 1;
    }
    while lo < hi && is_space(s[hi - 1])
        invariant
            lo <= hi <= s@.len(),
            spec_trim(s@) == spec_trim(s@.subrange(lo as int, hi as int)),
            lo < hi ==> !spec_is_space(s@[lo as int]),
        decreases hi - lo,
    {
        proof {
            let cur = s@.subrange(lo as int, hi as int);
            assert(cur.drop_last() =~= s@.subrange(lo as int, hi as int - 1));
            assert(cur.last() == s@[hi - 1]);
        }
        hi = hi - 1;
    }
    let mid = vstd::slice::slice_subrange(s, lo, hi);
    proof {
        let cur = s@.subrange(lo as int, hi as int);
        assert(spec_trim(cur) == cur);
    }
    parse_i32_chars(mid)
}

} // verus!
