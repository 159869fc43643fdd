//! The persisted-configuration format: one JSON object with the three string
//! fields `proton`, `prefix` and `game`, in that order, with a canonical
//! escape for every string — `\"` for a quote, `\\` for a backslash, and a
//! lowercase `\u00..` escape for every control character. The encoder emits
//! exactly this form and the decoder accepts exactly this form, so decoding
//! inverts encoding for every record, and anything else is rejected as
//! corrupt.

use vstd::prelude::*;
use vstd::string::*;
use crate::text::push_char;

verus! {

/// The control character with code `v`.
pub open spec fn ctl_char(v: int) -> char
    recommends
        0 <= v < 32,
{
    if v == 0 {
        '\u{0}'
    } else if v == 1 {
        '\u{1}'
    } else if v == 2 {
        '\u{2}'
    } else if v == 3 {
        '\u{3}'
    } else if v == 4 {
        '\u{4}'
    } else if v == 5 {
        '\u{5}'
    } else if v == 6 {
        '\u{6}'
    } else if v == 7 {
        '\u{7}'
    } else if v == 8 {
        '\u{8}'
    } else if v == 9 {
        '\u{9}'
    } else if v == 10 {
        '\u{a}'
    } else if v == 11 {
        '\u{b}'
    } else if v == 12 {
        '\u{c}'
    } else if v == 13 {
        '\u{d}'
    } else if v == 14 {
        '\u{e}'
    } else if v == 15 {
        '\u{f}'
    } else if v == 16 {
        '\u{10}'
    } else if v == 17 {
        '\u{11}'
    } else if v == 18 {
        '\u{12}'
    } else if v == 19 {
        '\u{13}'
    } else if v == 20 {
        '\u{14}'
    } else if v == 21 {
        '\u{15}'
    } else if v == 22 {
        '\u{16}'
    } else if v == 23 {
        '\u{17}'
    } else if v == 24 {
        '\u{18}'
    } else if v == 25 {
        '\u{19}'
    } else if v == 26 {
        '\u{1a}'
    } else if v == 27 {
        '\u{1b}'
    } else if v == 28 {
        '\u{1c}'
    } else if v == 29 {
        '\u{1d}'
    } else if v == 30 {
        '\u{1e}'
    } else {
        '\u{1f}'
    }
}

/// The lowercase hexadecimal digit for `d`.
pub open spec fn hex_digit(d: int) -> char
    recommends
        0 <= d < 16,
{
    if d == 0 {
        '0'
    } else if d == 1 {
        '1'
    } else if d == 2 {
        '2'
    } else if d == 3 {
        '3'
    } else if d == 4 {
        '4'
    } else if d == 5 {
        '5'
    } else if d == 6 {
        '6'
    } else if d == 7 {
        '7'
    } else if d == 8 {
        '8'
    } else if d == 9 {
        '9'
    } else if d == 10 {
        'a'
    } else if d == 11 {
        'b'
    } else if d == 12 {
        'c'
    } else if d == 13 {
        'd'
    } else if d == 14 {
        'e'
    } else {
        'f'
    }
}

/// The value of a lowercase hexadecimal digit, `-1` for any other character.
pub open spec fn hex_val(c: char) -> int {
    if c == '0' {
        0
    } else if c == '1' {
        1
    } else if c == '2' {
        2
    } else if c == '3' {
        3
    } else if c == '4' {
        4
    } else if c == '5' {
        5
    } else if c == '6' {
        6
    } else if c == '7' {
        7
    } else if c == '8' {
        8
    } else if c == '9' {
        9
    } else if c == 'a' {
        10
    } else if c == 'b' {
        11
    } else if c == 'c' {
        12
    } else if c == 'd' {
        13
    } else if c == 'e' {
        14
    } else if c == 'f' {
        15
    } else {
        -1
    }
}

/// The canonical escape of one character: quotes and backslashes get a
/// backslash escape, control characters a `\u00..` escape, everything else
/// stands for itself.
pub open spec fn esc_char(c: char) -> Seq<char> {
    if c == '"' {
        seq!['\\', '"']
    } else if c == '\\' {
        seq!['\\', '\\']
    } else if (c as u32) < 0x20 {
        seq![
            '\\',
            'u',
            '0',
            '0',
            hex_digit((c as u32) as int / 16),
            hex_digit((c as u32) as int % 16),
        ]
    } else {
        seq![c]
    }
}

/// The canonical escape of a whole string.
pub open spec fn esc(s: Seq<char>) -> Seq<char>
    decreases s.len(),
{
    if s.len() == 0 {
        Seq::<char>::empty()
    } else {
        esc_char(s[0]) + esc(s.drop_first())
    }
}

/// The fixed opening of the record, up to and including the opening quote of
/// the first field's value.
pub open spec fn key_proton() -> Seq<char> {
    seq!['{', '"', 'p', 'r', 'o', 't', 'o', 'n', '"', ':', '"']
}

/// The fixed text between the first and the second field's values.
pub open spec fn key_prefix() -> Seq<char> {
    seq![',', '"', 'p', 'r', 'e', 'f', 'i', 'x', '"', ':', '"']
}

/// The fixed text between the second and the third field's values.
pub open spec fn key_game() -> Seq<char> {
    seq![',', '"', 'g', 'a', 'm', 'e', '"', ':', '"']
}

/// The canonical encoding of a record with field values `p`, `q` and `g`.
pub open spec fn spec_encode(p: Seq<char>, q: Seq<char>, g: Seq<char>) -> Seq<char> {
    key_proton() + esc(p) + seq!['"'] + key_prefix() + esc(q) + seq!['"'] + key_game() + esc(g)
        + seq!['"', '}']
}

/// Parses one string body starting at `i` (just past the opening quote) up
/// to its closing quote: the decoded value and the position just past the
/// closing quote, or nothing when the text is not in canonical form.
pub open spec fn spec_parse_str(s: Seq<char>, i: int) -> Option<(Seq<char>, int)>
    decreases s.len() - i when 0 <= i <= s.len()
{
    if i >= s.len() {
        None
    } else if s[i] == '"' {
        Some((Seq::<char>::empty(), i + 1))
    } else if s[i] == '\\' {
        if i + 1 < s.len() && (s[i + 1] == '"' || s[i + 1] == '\\') {
            match spec_parse_str(s, i + 2) {
                Some(t) => Some((seq![s[i + 1]] + t.0, t.1)),
                None => None,
            }
        } else if i + 5 < s.len() && s[i + 1] == 'u' && s[i + 2] == '0' && s[i + 3] == '0'
            && hex_val(s[i + 4]) >= 0 && hex_val(s[i + 5]) >= 0 && hex_val(s[i + 4]) * 16 + hex_val(
            s[i + 5],
        ) < 0x20 {
            match spec_parse_str(s, i + 6) {
                Some(t) => Some(
                    (seq![ctl_char(hex_val(s[i + 4]) * 16 + hex_val(s[i + 5]))] + t.0, t.1),
                ),
                None => None,
            }
        } else {
            None
        }
    } else if (s[i] as u32) < 0x20 {
        None
    } else {
        match spec_parse_str(s, i + 1) {
            Some(t) => Some((seq![s[i]] + t.0, t.1)),
            None => None,
        }
    }
}

/// Whether `seg` stands in `s` at position `i`.
pub open spec fn has_at(s: Seq<char>, i: int, seg: Seq<char>) -> bool {
    0 <= i && i + seg.len() <= s.len() && s.subrange(i, i + seg.len()) == seg
}

/// What the decoder accepts: exactly the canonical encodings, field by field,
/// with nothing before or after the record.
pub open spec fn spec_decode(s: Seq<char>) -> Option<(Seq<char>, Seq<char>, Seq<char>)> {
    if !has_at(s, 0, key_proton()) {
        None
    } else {
        match spec_parse_str(s, key_proton().len() as int) {
            None => None,
            Some((p, j1)) => if !has_at(s, j1, key_prefix()) {
                None
            } else {
                match spec_parse_str(s, j1 + key_prefix().len()) {
                    None => None,
                    Some((q, j2)) => if !has_at(s, j2, key_game()) {
                        None
                    } else {
                        match spec_parse_str(s, j2 + key_game().len()) {
                            None => None,
                            Some((g, j3)) => if j3 < s.len() && s[j3] == '}' && j3 + 1 == s.len() {
                                Some((p, q, g))
                            } else {
                                None
                            },
                        }
                    },
                }
            },
        }
    }
}

/// Escaping a string starting with `c` escapes `c` and then the rest.
proof fn lemma_esc_cons(c: char, t: Seq<char>)
    ensures
        esc(seq![c] + t) == esc_char(c) + esc(t),
{
    let s = seq![c] + t;
    assert(s[0] == c);
    assert(s.drop_first() =~= t);
}

/// Escaping distributes over appending one character at the end.
proof fn lemma_esc_snoc(t: Seq<char>, c: char)
    ensures
        esc(t.push(c)) == esc(t) + esc_char(c),
    decreases t.len(),
{
    let s = t.push(c);
    if t.len() == 0 {
        assert(s[0] == c);
        assert(s.drop_first() =~= Seq::<char>::empty());
        assert(esc(s) == esc_char(c) + esc(Seq::<char>::empty()));
        assert(esc(Seq::<char>::empty()) == Seq::<char>::empty());
        assert(esc_char(c) + Seq::<char>::empty() =~= esc_char(c));
        assert(t =~= Seq::<char>::empty());
        assert(esc(t) + esc_char(c) =~= esc_char(c));
    } else {
        assert(s[0] == t[0]);
        assert(s.drop_first() =~= t.drop_first().push(c));
        lemma_esc_snoc(t.drop_first(), c);
        assert(esc(s) == esc_char(t[0]) + (esc(t.drop_first()) + esc_char(c)));
        assert(esc_char(t[0]) + (esc(t.drop_first()) + esc_char(c)) =~= (esc_char(t[0]) + esc(
            t.drop_first(),
        )) + esc_char(c));
    }
}

/// The control-character table inverts the character's code.
proof fn lemma_ctl_char_id(c: char)
    requires
        (c as u32) < 0x20,
    ensures
        ctl_char((c as u32) as int) == c,
{
}

/// Hexadecimal digits decode to their value.
proof fn lemma_hex_digit_val(d: int)
    requires
        0 <= d < 16,
    ensures
        hex_val(hex_digit(d)) == d,
{
}

/// A character with a hexadecimal value is that value's digit.
proof fn lemma_hex_val_digit(c: char)
    requires
        hex_val(c) >= 0,
    ensures
        hex_digit(hex_val(c)) == c,
{
}

/// The control-character table maps each code to the character with that
/// code.
proof fn lemma_ctl_char_code(v: int)
    requires
        0 <= v < 32,
    ensures
        ctl_char(v) as u32 == v,
{
}

/// Completeness of the string-body parser: at a position where the text is
/// the canonical escape of `x`, its closing quote, and anything after, the
/// parser succeeds with exactly `x` and stops just past the closing quote.
#[verifier::rlimit(100)]
proof fn lemma_parse_esc(s: Seq<char>, i: int, x: Seq<char>, rest: Seq<char>)
    requires
        0 <= i <= s.len(),
        s.subrange(i, s.len() as int) == esc(x) + seq!['"'] + rest,
    ensures
        spec_parse_str(s, i) == Some((x, i + esc(x).len() + 1)),
    decreases x.len(),
{
    let tail = s.subrange(i, s.len() as int);
    assert(tail.len() == esc(x).len() + 1 + rest.len());
    assert forall|k: int| 0 <= k < tail.len() implies s[i + k] == tail[k] by {}
    if x.len() == 0 {
        assert(esc(x) == Seq::<char>::empty());
        assert(tail[0] == '"');
        assert(s[i] == '"');
        assert(x =~= Seq::<char>::empty());
    } else {
        let c = x[0];
        let x2 = x.drop_first();
        assert(seq![c] + x2 =~= x);
        lemma_esc_cons(c, x2);
        let e1 = esc_char(c);
        assert(esc(x) == e1 + esc(x2));
        assert(tail =~= e1 + (esc(x2) + seq!['"'] + rest));
        assert forall|k: int| 0 <= k < e1.len() implies s[i + k] == e1[k] by {
            assert(tail[k] == e1[k]);
        }
        let i2 = i + e1.len();
        assert(s.subrange(i2, s.len() as int) =~= esc(x2) + seq!['"'] + rest) by {
            assert forall|k: int| 0 <= k < s.len() - i2 implies s.subrange(
                i2,
                s.len() as int,
            )[k] == (esc(x2) + seq!['"'] + rest)[k] by {
                assert(s.subrange(i2, s.len() as int)[k] == tail[e1.len() + k]);
                assert(tail[e1.len() + k] == (esc(x2) + seq!['"'] + rest)[k]);
            }
        }
        lemma_parse_esc(s, i2, x2, rest);
        if c == '"' || c == '\\' {
            assert(e1 == seq!['\\', c]);
            assert(s[i] == '\\' && s[i + 1] == c);
            assert(spec_parse_str(s, i) == Some((seq![s[i + 1]] + x2, i + esc(x).len() + 1)));
            assert(seq![s[i + 1]] + x2 == x);
        } else if (c as u32) < 0x20 {
            let cu = (c as u32) as int;
            assert(e1 == seq!['\\', 'u', '0', '0', hex_digit(cu / 16), hex_digit(cu % 16)]);
            assert(s[i] == '\\' && s[i + 1] == 'u' && s[i + 2] == '0' && s[i + 3] == '0');
            assert(s[i + 4] == hex_digit(cu / 16) && s[i + 5] == hex_digit(cu % 16));
            lemma_hex_digit_val(cu / 16);
            lemma_hex_digit_val(cu % 16);
            assert(hex_val(s[i + 4]) == cu / 16 && hex_val(s[i + 5]) == cu % 16);
            assert(hex_val(s[i + 4]) * 16 + hex_val(s[i + 5]) == cu);
            lemma_ctl_char_id(c);
            assert(spec_parse_str(s, i) == Some((seq![c] + x2, i + esc(x).len() + 1)));
        } else {
            assert(e1 == seq![c]);
            assert(s[i] == c);
            assert(spec_parse_str(s, i) == Some((seq![s[i]] + x2, i + esc(x).len() + 1)));
        }
    }
}

/// A subrange whose head characters and tail subrange are known is their
/// concatenation.
proof fn lemma_sub_concat(s: Seq<char>, i: int, j: int, h: Seq<char>, t: Seq<char>)
    requires
        0 <= i,
        i + h.len() <= j <= s.len(),
        forall|k: int| 0 <= k < h.len() ==> s[i + k] == h[k],
        s.subrange(i + h.len(), j) == t,
    ensures
        s.subrange(i, j) == h + t,
{
    assert(s.subrange(i, j) =~= h + t) by {
        assert forall|k: int| 0 <= k < j - i implies s.subrange(i, j)[k] == (h + t)[k] by {
            assert(s.subrange(i, j)[k] == s[i + k]);
            if k >= h.len() {
                assert((h + t)[k] == t[k - h.len()]);
                assert(t[k - h.len()] == s.subrange(i + h.len(), j)[k - h.len()]);
            }
        }
    }
}

/// A subrange splits at any interior position.
proof fn lemma_sub_split(s: Seq<char>, i: int, m: int, j: int)
    requires
        0 <= i <= m <= j <= s.len(),
    ensures
        s.subrange(i, j) == s.subrange(i, m) + s.subrange(m, j),
{
    assert(s.subrange(i, j) =~= s.subrange(i, m) + s.subrange(m, j));
}

/// Soundness of the string-body parser: whatever it accepts is exactly the
/// canonical escape of the value it returns, followed by the closing quote.
#[verifier::rlimit(100)]
proof fn lemma_parse_sound(s: Seq<char>, i: int)
    requires
        0 <= i <= s.len(),
    ensures
        spec_parse_str(s, i) matches Some(t) ==> i < t.1 <= s.len() && s.subrange(i, t.1) == esc(
            t.0,
        ) + seq!['"'],
    decreases s.len() - i,
{
    match spec_parse_str(s, i) {
        None => {},
        Some((x, j)) => {
            if s[i] == '"' {
                assert(s.subrange(i, j) =~= seq!['"']);
                assert(esc(x) + seq!['"'] =~= seq!['"']);
            } else if s[i] == '\\' {
                if i + 1 < s.len() && (s[i + 1] == '"' || s[i + 1] == '\\') {
                    lemma_parse_sound(s, i + 2);
                    let t0 = spec_parse_str(s, i + 2)->Some_0.0;
                    assert(x == seq![s[i + 1]] + t0);
                    lemma_esc_cons(s[i + 1], t0);
                    assert(esc_char(s[i + 1]) == seq!['\\', s[i + 1]]);
                    let h = seq!['\\', s[i + 1]];
                    assert(forall|k: int| 0 <= k < h.len() ==> s[i + k] == h[k]);
                    lemma_sub_concat(s, i, j, h, esc(t0) + seq!['"']);
                    assert(h + (esc(t0) + seq!['"']) =~= esc(x) + seq!['"']);
                } else {
                    let v = hex_val(s[i + 4]) * 16 + hex_val(s[i + 5]);
                    lemma_parse_sound(s, i + 6);
                    let t0 = spec_parse_str(s, i + 6)->Some_0.0;
                    assert(x == seq![ctl_char(v)] + t0);
                    lemma_esc_cons(ctl_char(v), t0);
                    lemma_ctl_char_code(v);
                    assert((ctl_char(v) as u32) < 0x20);
                    assert(ctl_char(v) != '"' && ctl_char(v) != '\\') by {
                        assert(('"' as u32) == 0x22 && ('\\' as u32) == 0x5C);
                    }
                    lemma_hex_val_digit(s[i + 4]);
                    lemma_hex_val_digit(s[i + 5]);
                    assert(v / 16 == hex_val(s[i + 4]) && v % 16 == hex_val(s[i + 5]));
                    assert(esc_char(ctl_char(v)) == seq!['\\', 'u', '0', '0', s[i + 4], s[i + 5]]);
                    let h = seq!['\\', 'u', '0', '0', s[i + 4], s[i + 5]];
                    assert(forall|k: int| 0 <= k < h.len() ==> s[i + k] == h[k]);
                    lemma_sub_concat(s, i, j, h, esc(t0) + seq!['"']);
                    assert(h + (esc(t0) + seq!['"']) =~= esc(x) + seq!['"']);
                }
            } else {
                lemma_parse_sound(s, i + 1);
                let t0 = spec_parse_str(s, i + 1)->Some_0.0;
                assert(x == seq![s[i]] + t0);
                lemma_esc_cons(s[i], t0);
                assert(esc_char(s[i]) == seq![s[i]]);
                let h = seq![s[i]];
                assert(forall|k: int| 0 <= k < h.len() ==> s[i + k] == h[k]);
                lemma_sub_concat(s, i, j, h, esc(t0) + seq!['"']);
                assert(h + (esc(t0) + seq!['"']) =~= esc(x) + seq!['"']);
            }
        },
    }
}

/// Decoding inverts encoding: the canonical encoding of any record decodes
/// to exactly that record. With the store's save/load built on this pair,
/// a save followed by a load returns the record that was saved.
#[verifier::rlimit(100)]
pub proof fn lemma_round_trip(p: Seq<char>, q: Seq<char>, g: Seq<char>)
    ensures
        spec_decode(spec_encode(p, q, g)) == Some((p, q, g)),
{
    let s = spec_encode(p, q, g);
    let a = key_proton();
    let c2 = key_prefix();
    let e = key_game();
    assert(s.subrange(0, a.len() as int) =~= a);
    let rest1 = c2 + esc(q) + seq!['"'] + e + esc(g) + seq!['"', '}'];
    assert(s.subrange(a.len() as int, s.len() as int) =~= esc(p) + seq!['"'] + rest1);
    lemma_parse_esc(s, a.len() as int, p, rest1);
    let j1: int = a.len() as int + esc(p).len() as int + 1;
    assert(s.subrange(j1, j1 + c2.len() as int) =~= c2);
    let rest2 = e + esc(g) + seq!['"', '}'];
    assert(s.subrange(j1 + c2.len() as int, s.len() as int) =~= esc(q) + seq!['"'] + rest2);
    lemma_parse_esc(s, j1 + c2.len() as int, q, rest2);
    let j2: int = j1 + c2.len() as int + esc(q).len() as int + 1;
    assert(s.subrange(j2, j2 + e.len() as int) =~= e);
    let rest3 = seq!['}'];
    assert(s.subrange(j2 + e.len() as int, s.len() as int) =~= esc(g) + seq!['"'] + rest3);
    lemma_parse_esc(s, j2 + e.len() as int, g, rest3);
    let j3: int = j2 + e.len() as int + esc(g).len() as int + 1;
    assert(s[j3] == '}' && j3 + 1 == s.len());
}

/// Decoding is sound: whatever decodes was exactly the canonical encoding of
/// the decoded record. Together with `lemma_round_trip`, the decoder accepts
/// the canonical encodings and nothing else.
#[verifier::rlimit(100)]
pub proof fn lemma_decode_sound(s: Seq<char>)
    ensures
        spec_decode(s) matches Some(t) ==> s == spec_encode(t.0, t.1, t.2),
{
    if spec_decode(s) is Some {
        let a = key_proton();
        let c2 = key_prefix();
        let e = key_game();
        let (p, j1) = spec_parse_str(s, a.len() as int)->Some_0;
        lemma_parse_sound(s, a.len() as int);
        let (q, j2) = spec_parse_str(s, j1 + c2.len() as int)->Some_0;
        lemma_parse_sound(s, j1 + c2.len() as int);
        let (g, j3) = spec_parse_str(s, j2 + e.len() as int)->Some_0;
        lemma_parse_sound(s, j2 + e.len() as int);
        assert(spec_decode(s) == Some((p, q, g)));
        let n = s.len() as int;
        assert(s.subrange(0, a.len() as int) == a);
        assert(s.subrange(a.len() as int, j1) == esc(p) + seq!['"']);
        assert(s.subrange(j1, j1 + c2.len() as int) == c2);
        assert(s.subrange(j1 + c2.len() as int, j2) == esc(q) + seq!['"']);
        assert(s.subrange(j2, j2 + e.len() as int) == e);
        assert(s.subrange(j2 + e.len() as int, j3) == esc(g) + seq!['"']);
        assert(s[j3] == '}' && j3 + 1 == s.len());
        assert(s.subrange(j3, n) =~= seq!['}']);
        lemma_sub_split(s, j2 + e.len() as int, j3, n);
        lemma_sub_split(s, j2, j2 + e.len() as int, n);
        lemma_sub_split(s, j1 + c2.len() as int, j2, n);
        lemma_sub_split(s, j1, j1 + c2.len() as int, n);
        lemma_sub_split(s, a.len() as int, j1, n);
        lemma_sub_split(s, 0, a.len() as int, n);
        assert(s.subrange(0, n) =~= s);
        assert(s == a + ((esc(p) + seq!['"']) + (c2 + ((esc(q) + seq!['"']) + (e + ((esc(g)
            + seq!['"']) + seq!['}']))))));
        lemma_encode_shape(p, q, g);
    }
}

/// The nested grouping of the encoding's segments equals the flat encoding.
#[verifier::rlimit(100)]
proof fn lemma_encode_shape(p: Seq<char>, q: Seq<char>, g: Seq<char>)
    ensures
        key_proton() + ((esc(p) + seq!['"']) + (key_prefix() + ((esc(q) + seq!['"']) + (key_game()
            + ((esc(g) + seq!['"']) + seq!['}']))))) == spec_encode(p, q, g),
{
    assert(key_proton() + ((esc(p) + seq!['"']) + (key_prefix() + ((esc(q) + seq!['"']) + (
    key_game() + ((esc(g) + seq!['"']) + seq!['}']))))) =~= spec_encode(p, q, g));
}


/// The lowercase hexadecimal digit for `d`, executable form.
fn hex_exec(d: u32) -> (c: char)
    requires
        d < 16,
    ensures
        c == hex_digit(d as int),
{
    if d == 0 {
        '0'
    } else if d == 1 {
        '1'
    } else if d == 2 {
        '2'
    } else if d == 3 {
        '3'
    } else if d == 4 {
        '4'
    } else if d == 5 {
        '5'
    } else if d == 6 {
        '6'
    } else if d == 7 {
        '7'
    } else if d == 8 {
        '8'
    } else if d == 9 {
        '9'
    } else if d == 10 {
        'a'
    } else if d == 11 {
        'b'
    } else if d == 12 {
        'c'
    } else if d == 13 {
        'd'
    } else if d == 14 {
        'e'
    } else {
        'f'
    }
}

/// The value of a lowercase hexadecimal digit, executable form.
fn hex_val_exec(c: char) -> (r: Option<u32>)
    ensures
        match r {
            Some(d) => hex_val(c) == d as int && d < 16,
            None => hex_val(c) < 0,
        },
{
    if c == '0' {
        Some(0)
    } else if c == '1' {
        Some(1)
    } else if c == '2' {
        Some(2)
    } else if c == '3' {
        Some(3)
    } else if c == '4' {
        Some(4)
    } else if c == '5' {
        Some(5)
    } else if c == '6' {
        Some(6)
    } else if c == '7' {
        Some(7)
    } else if c == '8' {
        Some(8)
    } else if c == '9' {
        Some(9)
    } else if c == 'a' {
        Some(10)
    } else if c == 'b' {
        Some(11)
    } else if c == 'c' {
        Some(12)
    } else if c == 'd' {
        Some(13)
    } else if c == 'e' {
        Some(14)
    } else if c == 'f' {
        Some(15)
    } else {
        None
    }
}

/// The control character with code `v`, executable form.
fn ctl_exec(v: u32) -> (c: char)
    requires
        v < 32,
    ensures
        c == ctl_char(v as int),
{
    if v == 0 {
        '\u{0}'
    } else if v == 1 {
        '\u{1}'
    } else if v == 2 {
        '\u{2}'
    } else if v == 3 {
        '\u{3}'
    } else if v == 4 {
        '\u{4}'
    } else if v == 5 {
        '\u{5}'
    } else if v == 6 {
        '\u{6}'
    } else if v == 7 {
        '\u{7}'
    } else if v == 8 {
        '\u{8}'
    } else if v == 9 {
        '\u{9}'
    } else if v == 10 {
        '\u{a}'
    } else if v == 11 {
        '\u{b}'
    } else if v == 12 {
        '\u{c}'
    } else if v == 13 {
        '\u{d}'
    } else if v == 14 {
        '\u{e}'
    } else if v == 15 {
        '\u{f}'
    } else if v == 16 {
        '\u{10}'
    } else if v == 17 {
        '\u{11}'
    } else if v == 18 {
        '\u{12}'
    } else if v == 19 {
        '\u{13}'
    } else if v == 20 {
        '\u{14}'
    } else if v == 21 {
        '\u{15}'
    } else if v == 22 {
        '\u{16}'
    } else if v == 23 {
        '\u{17}'
    } else if v == 24 {
        '\u{18}'
    } else if v == 25 {
        '\u{19}'
    } else if v == 26 {
        '\u{1a}'
    } else if v == 27 {
        '\u{1b}'
    } else if v == 28 {
        '\u{1c}'
    } else if v == 29 {
        '\u{1d}'
    } else if v == 30 {
        '\u{1e}'
    } else {
        '\u{1f}'
    }
}

/// The characters of `s`, as a vector.
fn chars_of(s: &str) -> (v: Vec<char>)
    ensures
        v@ == s@,
{
    let n = s.unicode_len();
    let mut v: Vec<char> = Vec::new();
    let mut i: usize = 0;
    while i < n
        invariant
            n == s@.len(),
            i <= n,
            v@ == s@.subrange(0, i as int),
        decreases n - i,
    {
        v.push(s.get_char(i));
        proof {
            assert(s@.subrange(0, (i + 1) as int) =~= s@.subrange(0, i as int).push(
                s@[i as int],
            ));
        }
        i = i + 1;
    }
    proof {
        assert(s@.subrange(0, n as int) =~= s@);
    }
    v
}

/// A string holding exactly the characters of `v`.
fn string_of(v: &Vec<char>) -> (s: String)
    ensures
        s@ == v@,
{
    let mut s = String::new();
    let mut i: usize = 0;
    while i < v.len()
        invariant
            i <= v@.len(),
            s@ == v@.subrange(0, i as int),
        decreases v@.len() - i,
    {
        push_char(&mut s, v[i]);
        proof {
            assert(v@.subrange(0, (i + 1) as int) =~= v@.subrange(0, i as int).push(
                v@[i as int],
            ));
        }
        i = i + 1;
    }
    proof {
        assert(v@.subrange(0, v@.len() as int) =~= v@);
    }
    s
}

/// Appends the canonical escape of `s` to `out`.
fn escape_into(out: &mut String, s: &str)
    ensures
        final(out)@ == old(out)@ + esc(s@),
{
    let ghost base = out@;
    let n = s.unicode_len();
    let mut i: usize = 0;
    while i < n
        invariant
            n == s@.len(),
            i <= n,
            out@ == base + esc(s@.subrange(0, i as int)),
        decreases n - i,
    {
        let c = s.get_char(i);
        let u = c as u32;
        if c == '"' {
            push_char(out, '\\');
            push_char(out, '"');
        } else if c == '\\' {
            push_char(out, '\\');
            push_char(out, '\\');
        } else if u < 0x20 {
            push_char(out, '\\');
            push_char(out, 'u');
            push_char(out, '0');
            push_char(out, '0');
            push_char(out, hex_exec(u / 16));
            push_char(out, hex_exec(u % 16));
        } else {
            push_char(out, c);
        }
        proof {
            lemma_esc_snoc(s@.subrange(0, i as int), c);
            assert(s@.subrange(0, (i + 1) as int) =~= s@.subrange(0, i as int).push(c));
            assert(out@ =~= base + esc(s@.subrange(0, (i + 1) as int)));
        }
        i = i + 1;
    }
    proof {
        assert(s@.subrange(0, n as int) =~= s@);
        assert(base =~= old(out)@);
    }
}

/// Encodes a record with the three field values into its canonical form.
pub fn encode_record(p: &str, q: &str, g: &str) -> (r: String)
    ensures
        r@ == spec_encode(p@, q@, g@),
{
    let mut out = String::from_str("{\"proton\":\"");
    proof {
        reveal_strlit("{\"proton\":\"");
        assert(out@ =~= key_proton());
    }
    escape_into(&mut out, p);
    out.append("\",\"prefix\":\"");
    proof {
        reveal_strlit("\",\"prefix\":\"");
        assert("\",\"prefix\":\""@ =~= seq!['"'] + key_prefix());
    }
    escape_into(&mut out, q);
    out.append("\",\"game\":\"");
    proof {
        reveal_strlit("\",\"game\":\"");
        assert("\",\"game\":\""@ =~= seq!['"'] + key_game());
    }
    escape_into(&mut out, g);
    out.append("\"}");
    proof {
        reveal_strlit("\"}");
        assert("\"}"@ =~= seq!['"', '}']);
        assert(out@ =~= spec_encode(p@, q@, g@));
    }
    out
}

/// Whether the characters of `w` stand in `v` at position `i`.
fn expect_at(v: &Vec<char>, i: usize, w: &str) -> (b: bool)
    ensures
        b == has_at(v@, i as int, w@),
{
    let wn = w.unicode_len();
    let vn = v.len();
    if i > vn || vn - i < wn {
        return false;
    }
    let mut j: usize = 0;
    while j < wn
        invariant
            wn == w@.len(),
            vn == v@.len(),
            i + wn <= vn,
            j <= wn,
            forall|t: int| 0 <= t < j ==> v@[i + t] == w@[t],
        decreases wn - j,
    {
        if v[i + j] != w.get_char(j) {
            proof {
                assert(v@.subrange(i as int, i + wn as int)[j as int] == v@[i + j]);
            }
            return false;
        }
        j = j + 1;
    }
    proof {
        assert(v@.subrange(i as int, i + wn as int) =~= w@);
    }
    true
}

/// Parses one string body of the canonical form, starting just past its
/// opening quote: the decoded value and the position just past the closing
/// quote, exactly as `spec_parse_str` describes.
fn parse_str_exec(v: &Vec<char>, start: usize) -> (r: Option<(Vec<char>, usize)>)
    requires
        start <= v.len(),
    ensures
        match r {
            Some(t) => spec_parse_str(v@, start as int) == Some((t.0@, t.1 as int)) && start
                < t.1 <= v.len(),
            None => spec_parse_str(v@, start as int) is None,
        },
{
    let mut i: usize = start;
    let mut out: Vec<char> = Vec::new();
    loop
        invariant
            start <= i <= v@.len(),
            spec_parse_str(v@, start as int) == (match spec_parse_str(v@, i as int) {
                Some(t) => Some::<(Seq<char>, int)>((out@ + t.0, t.1)),
                None => None::<(Seq<char>, int)>,
            }),
        decreases v@.len() - i,
    {
        if i >= v.len() {
            return None;
        }
        let c = v[i];
        if c == '"' {
            proof {
                assert(out@ + Seq::<char>::empty() =~= out@);
            }
            return Some((out, i + 1));
        }
        if c == '\\' {
            if i + 1 < v.len() && (v[i + 1] == '"' || v[i + 1] == '\\') {
                let ghost out0 = out@;
                out.push(v[i + 1]);
                proof {
                    match spec_parse_str(v@, (i + 2) as int) {
                        Some(t) => {
                            assert(out0 + (seq![v@[i + 1]] + t.0) =~= (out0 + seq![v@[i + 1]])
                                + t.0);
                            assert(out@ =~= out0 + seq![v@[i + 1]]);
                        },
                        None => {},
                    }
                }
                i = i + 2;
            } else if v.len() - i > 5 && v[i + 1] == 'u' && v[i + 2] == '0' && v[i + 3] == '0' {
                let d1 = match hex_val_exec(v[i + 4]) {
                    Some(d) => d,
                    None => {
                        return None;
                    },
                };
                let d2 = match hex_val_exec(v[i + 5]) {
                    Some(d) => d,
                    None => {
                        return None;
                    },
                };
                let val = d1 * 16 + d2;
                if val >= 0x20 {
                    return None;
                }
                let ghost out0 = out@;
                out.push(ctl_exec(val));
                proof {
                    let sv = hex_val(v@[i + 4]) * 16 + hex_val(v@[i + 5]);
                    assert(sv == val as int);
                    match spec_parse_str(v@, (i + 6) as int) {
                        Some(t) => {
                            assert(out0 + (seq![ctl_char(sv)] + t.0) =~= (out0 + seq![
                                ctl_char(sv),
                            ]) + t.0);
                            assert(out@ =~= out0 + seq![ctl_char(sv)]);
                        },
                        None => {},
                    }
                }
                i = i + 6;
            } else {
                return None;
            }
        } else if (c as u32) < 0x20 {
            return None;
        } else {
            let ghost out0 = out@;
            out.push(c);
            proof {
                match spec_parse_str(v@, (i + 1) as int) {
                    Some(t) => {
                        assert(out0 + (seq![v@[i as int]] + t.0) =~= (out0 + seq![v@[i as int]])
                            + t.0);
                        assert(out@ =~= out0 + seq![v@[i as int]]);
                    },
                    None => {},
                }
            }
            i = i + 1;
        }
    }
}

/// Decodes a canonical record into its three field values; anything that is
/// not exactly a canonical encoding is rejected, exactly as `spec_decode`
/// describes.
pub fn decode_record(s: &str) -> (r: Option<(String, String, String)>)
    ensures
        match r {
            Some(t) => spec_decode(s@) == Some((t.0@, t.1@, t.2@)),
            None => spec_decode(s@) is None,
        },
{
    let v = chars_of(s);
    proof {
        reveal_strlit("{\"proton\":\"");
        assert("{\"proton\":\""@ =~= key_proton());
        reveal_strlit(",\"prefix\":\"");
        assert(",\"prefix\":\""@ =~= key_prefix());
        reveal_strlit(",\"game\":\"");
        assert(",\"game\":\""@ =~= key_game());
    }
    if !expect_at(&v, 0, "{\"proton\":\"") {
        return None;
    }
    let (pv, j1) = match parse_str_exec(&v, 11) {
        Some(t) => t,
        None => {
            return None;
        },
    };
    if !expect_at(&v, j1, ",\"prefix\":\"") {
        return None;
    }
    let (qv, j2) = match parse_str_exec(&v, j1 + 11) {
        Some(t) => t,
        None => {
            return None;
        },
    };
    if !expect_at(&v, j2, ",\"game\":\"") {
        return None;
    }
    let (gv, j3) = match parse_str_exec(&v, j2 + 9) {
        Some(t) => t,
        None => {
            return None;
        },
    };
    if j3 >= v.len() {
        return None;
    }
    if v[j3] != '}' {
        return None;
    }
    if j3 + 1 != v.len() {
        return None;
    }
    Some((string_of(&pv), string_of(&qv), string_of(&gv)))
}

} // verus!
