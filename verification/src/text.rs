//! Character-sequence helpers shared by the validator, the classifier and the
//! command builders: whitespace tests, substring and suffix search, and
//! decimal rendering of integers.

use vstd::prelude::*;
use vstd::string::*;

verus! {

/// The characters that count as whitespace when a configuration field is
/// checked for being blank: the Unicode whitespace set.
pub open spec fn is_wspace(c: char) -> bool {
    (c as u32) == 0x09 || (c as u32) == 0x0A || (c as u32) == 0x0B || (c as u32) == 0x0C
        || (c as u32) == 0x0D || (c as u32) == 0x20 || (c as u32) == 0x85 || (c as u32) == 0xA0
        || (c as u32) == 0x1680 || (0x2000 <= (c as u32) && (c as u32) <= 0x200A)
        || (c as u32) == 0x2028 || (c as u32) == 0x2029 || (c as u32) == 0x202F
        || (c as u32) == 0x205F || (c as u32) == 0x3000
}

/// A sequence is blank when every character in it is whitespace; the empty
/// sequence is blank.
pub open spec fn is_blank(s: Seq<char>) -> bool {
    forall|i: int| 0 <= i < s.len() ==> is_wspace(#[trigger] s[i])
}

/// Whether `c` is one of the whitespace characters of `is_wspace`.
pub fn char_is_wspace(c: char) -> (b: bool)
    ensures
        b == is_wspace(c),
{
    let u = c as u32;
    u == 0x09 || u == 0x0A || u == 0x0B || u == 0x0C || u == 0x0D || u == 0x20 || u == 0x85
        || u == 0xA0 || u == 0x1680 || (0x2000 <= u && u <= 0x200A) || u == 0x2028 || u == 0x2029
        || u == 0x202F || u == 0x205F || u == 0x3000
}

/// Whether `s` is empty or consists of whitespace only.
pub fn blank(s: &str) -> (b: bool)
    ensures
        b == is_blank(s@),
{
    let n = s.unicode_len();
    let mut i: usize = 0;
    while i < n
        invariant
            n == s@.len(),
            i <= n,
            forall|j: int| 0 <= j < i ==> is_wspace(#[trigger] s@[j]),
        decreases n - i,
    {
        if !char_is_wspace(s.get_char(i)) {
            return false;
        }
        i = i + 1;
    }
    true
}

/// `needle` occurs somewhere in `hay` as a contiguous subsequence.
pub open spec fn contains_seq(hay: Seq<char>, needle: Seq<char>) -> bool {
    exists|i: int|
        0 <= i && i + needle.len() <= hay.len() && #[trigger] hay.subrange(
            i,
            i + needle.len(),
        ) == needle
}

/// Substring search: whether `needle@` occurs in `hay@`.
pub fn contains_str(hay: &str, needle: &str) -> (b: bool)
    ensures
        b == contains_seq(hay@, needle@),
{
    let hn = hay.unicode_len();
    let nn = needle.unicode_len();
    if nn > hn {
        return false;
    }
    if nn == 0 {
        proof {
            assert(hay@.subrange(0, 0 + needle@.len() as int) =~= needle@);
            assert(contains_seq(hay@, needle@));
        }
        return true;
    }
    let mut i: usize = 0;
    while i <= hn - nn
        invariant
            1 <= nn <= hn,
            hn == hay@.len(),
            nn == needle@.len(),
            i <= hn - nn + 1,
            forall|k: int| 0 <= k < i ==> #[trigger] hay@.subrange(k, k + nn as int) != needle@,
        decreases hn - nn - i + 1,
    {
        let mut j: usize = 0;
        let mut matched = true;
        while j < nn
            invariant
                nn <= hn,
                hn == hay@.len(),
                nn == needle@.len(),
                i + nn <= hn,
                j <= nn,
                matched ==> forall|t: int| 0 <= t < j ==> hay@[i + t] == needle@[t],
                !matched ==> hay@.subrange(i as int, i + nn as int) != needle@,
            decreases nn - j,
        {
            if hay.get_char(i + j) != needle.get_char(j) {
                proof {
                    assert(hay@.subrange(i as int, i + nn as int)[j as int] == hay@[i + j]);
                }
                matched = false;
                j = nn;
            } else {
                j = j + 1;
            }
        }
        if matched {
            proof {
                assert(hay@.subrange(i as int, i + nn as int) =~= needle@);
            }
            return true;
        }
        i = i + 1;
    }
    proof {
        assert forall|k: int| 0 <= k && k + needle@.len() <= hay@.len() implies #[trigger] hay@
            .subrange(k, k + nn as int) != needle@ by {
            assert(k < i);
        }
    }
    false
}

/// `suffix` is a suffix of `hay`.
pub open spec fn ends_with_seq(hay: Seq<char>, suffix: Seq<char>) -> bool {
    suffix.len() <= hay.len() && hay.subrange(hay.len() - suffix.len(), hay.len() as int)
        == suffix
}

/// Whether `hay@` ends with `suffix@`.
pub fn ends_with_str(hay: &str, suffix: &str) -> (b: bool)
    ensures
        b == ends_with_seq(hay@, suffix@),
{
    let hn = hay.unicode_len();
    let sn = suffix.unicode_len();
    if sn > hn {
        return false;
    }
    let base = hn - sn;
    let mut j: usize = 0;
    while j < sn
        invariant
            sn <= hn,
            hn == hay@.len(),
            sn == suffix@.len(),
            base == hn - sn,
            j <= sn,
            forall|t: int| 0 <= t < j ==> hay@[base + t] == suffix@[t],
        decreases sn - j,
    {
        if hay.get_char(base + j) != suffix.get_char(j) {
            proof {
                assert(hay@.subrange(base as int, hn as int)[j as int] == hay@[base + j]);
            }
            return false;
        }
        j = j + 1;
    }
    proof {
        assert(hay@.subrange(base as int, hn as int) =~= suffix@);
    }
    true
}

/// Whether the first `k` characters of `s@` are exactly `w@`.
pub fn prefix_eq(s: &str, k: usize, w: &str) -> (b: bool)
    requires
        k <= s@.len(),
    ensures
        b == (s@.subrange(0, k as int) == w@),
{
    let wn = w.unicode_len();
    if wn != k {
        return false;
    }
    let mut j: usize = 0;
    while j < k
        invariant
            k <= s@.len(),
            k == w@.len(),
            j <= k,
            forall|t: int| 0 <= t < j ==> s@[t] == w@[t],
        decreases k - j,
    {
        if s.get_char(j) != w.get_char(j) {
            proof {
                assert(s@.subrange(0, k as int)[j as int] == s@[j as int]);
            }
            return false;
        }
        j = j + 1;
    }
    proof {
        assert(s@.subrange(0, k as int) =~= w@);
    }
    true
}

/// Character-for-character string equality.
pub fn str_eq(a: &str, b: &str) -> (r: bool)
    ensures
        r == (a@ == b@),
{
    let n = a.unicode_len();
    proof {
        assert(a@.subrange(0, a@.len() as int) =~= a@);
    }
    prefix_eq(a, n, b)
}

/// The index of the first occurrence of `c` in `s@`, if any.
pub fn find_first(s: &str, c: char) -> (r: Option<usize>)
    ensures
        match r {
            Some(i) => i < s@.len() && s@[i as int] == c && forall|j: int|
                0 <= j < i ==> s@[j] != c,
            None => forall|j: int| 0 <= j < s@.len() ==> s@[j] != c,
        },
{
    let n = s.unicode_len();
    let mut i: usize = 0;
    while i < n
        invariant
            n == s@.len(),
            i <= n,
            forall|j: int| 0 <= j < i ==> s@[j] != c,
        decreases n - i,
    {
        if s.get_char(i) == c {
            return Some(i);
        }
        i = i + 1;
    }
    None
}

/// The index of the last occurrence of `c` in `s@`, if any.
pub fn find_last(s: &str, c: char) -> (r: Option<usize>)
    ensures
        match r {
            Some(i) => i < s@.len() && s@[i as int] == c && forall|j: int|
                i < j < s@.len() ==> s@[j] != c,
            None => forall|j: int| 0 <= j < s@.len() ==> s@[j] != c,
        },
{
    let n = s.unicode_len();
    let mut i: usize = n;
    while i > 0
        invariant
            n == s@.len(),
            i <= n,
            forall|j: int| i <= j < n ==> s@[j] != c,
        decreases i,
    {
        i = i - 1;
        if s.get_char(i) == c {
            return Some(i);
        }
    }
    None
}

/// The decimal digit character for `d`.
pub open spec fn digit_char(d: int) -> char
    recommends
        0 <= d < 10,
{
    if d == 0 {
        '0'
    } else if d == 1 {
        '1'
    } else if d == 2 {
        '2'
    } else if d == 3 {
        '3'
    } else if d == 4 {
        '4'
    } else if d == 5 {
        '5'
    } else if d == 6 {
        '6'
    } else if d == 7 {
        '7'
    } else if d == 8 {
        '8'
    } else {
        '9'
    }
}

/// The decimal rendering of a non-negative integer, most significant digit
/// first, with no leading zeros (`0` renders as `"0"`).
pub open spec fn dec_rep(n: int) -> Seq<char>
    recommends
        n >= 0,
    decreases n,
{
    if n < 10 {
        seq![digit_char(n)]
    } else {
        dec_rep(n / 10).push(digit_char(n % 10))
    }
}

/// The decimal digit character for `d`, executable form.
fn digit_exec(d: u32) -> (c: char)
    requires
        d < 10,
    ensures
        c == digit_char(d as int),
{
    if d == 0 {
        '0'
    } else if d == 1 {
        '1'
    } else if d == 2 {
        '2'
    } else if d == 3 {
        '3'
    } else if d == 4 {
        '4'
    } else if d == 5 {
        '5'
    } else if d == 6 {
        '6'
    } else if d == 7 {
        '7'
    } else if d == 8 {
        '8'
    } else {
        '9'
    }
}

/// Relies on `String::push`: appends the given character to the end of the
/// string.
#[verifier::external_body]
pub fn push_char(s: &mut String, c: char)
    ensures
        final(s)@ == old(s)@.push(c),
{
    s.push(c);
}

/// Renders `n` in decimal.
pub fn u32_string(n: u32) -> (r: String)
    ensures
        r@ == dec_rep(n as int),
    decreases n,
{
    if n < 10 {
        let mut r = String::new();
        push_char(&mut r, digit_exec(n));
        proof {
            assert(r@ =~= dec_rep(n as int));
        }
        r
    } else {
        let mut r = u32_string(n / 10);
        push_char(&mut r, digit_exec(n % 10));
        r
    }
}

/// Renders `n` in decimal.
pub fn usize_string(n: usize) -> (r: String)
    ensures
        r@ == dec_rep(n as int),
    decreases n,
{
    if n < 10 {
        let mut r = String::new();
        push_char(&mut r, digit_exec((n % 10) as u32));
        proof {
            assert(r@ =~= dec_rep(n as int));
        }
        r
    } else {
        let mut r = usize_string(n / 10);
        push_char(&mut r, digit_exec((n % 10) as u32));
        r
    }
}

} // verus!
