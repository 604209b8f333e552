//! Small verified text utilities the remote-control surface rests on:
//! string comparison, ASCII case folding, and decimal `u8` parsing and
//! formatting. Malformed remote input is rejected, never propagated.

use vstd::prelude::*;

verus! {

/// Compare two strings for equality of their character sequences.
pub fn str_eq(a: &str, b: &str) -> (r: bool)
    ensures
        r == (a@ == b@),
{
    let alen = a.unicode_len();
    let blen = b.unicode_len();
    if alen != blen {
        assert(a@ != b@) by {
            assert(a@.len() != b@.len());
        }
        return false;
    }
    let mut i: usize = 0;
    while i < alen
        invariant
            0 <= i <= alen,
            alen == a@.len() && alen == b@.len(),
            forall|j: int| 0 <= j < i ==> a@[j] == b@[j],
        decreases alen - i,
    {
        if a.get_char(i) != b.get_char(i) {
            return false;
        }
        i += 1;
    }
    proof {
        assert(a@ =~= b@);
    }
    true
}

/// ASCII upper-casing of one character; everything outside `a..=z` is kept.
pub open spec fn spec_upper_char(c: char) -> char {
    if 'a' <= c && c <= 'z' {
        ((c as u8) - 32) as char
    } else {
        c
    }
}

/// The string with every ASCII lowercase letter upper-cased.
pub open spec fn spec_to_upper(s: Seq<char>) -> Seq<char> {
    s.map(|i: int, c: char| spec_upper_char(c))
}

/// Compare two strings ASCII-case-insensitively: equal exactly when their
/// upper-casings are equal.
pub fn str_eq_ignore_case(a: &str, b: &str) -> (r: bool)
    ensures
        r == (spec_to_upper(a@) == spec_to_upper(b@)),
{
    let alen = a.unicode_len();
    let blen = b.unicode_len();
    if alen != blen {
        assert(spec_to_upper(a@) != spec_to_upper(b@)) by {
            assert(spec_to_upper(a@).len() != spec_to_upper(b@).len());
        }
        return false;
    }
    let mut i: usize = 0;
    while i < alen
        invariant
            0 <= i <= alen,
            alen == a@.len() && alen == b@.len(),
            forall|j: int| 0 <= j < i ==> spec_to_upper(a@)[j] == spec_to_upper(b@)[j],
        decreases alen - i,
    {
        let ca = s_upper(a.get_char(i));
        let cb = s_upper(b.get_char(i));
        if ca != cb {
            assert(spec_to_upper(a@)[i as int] != spec_to_upper(b@)[i as int]);
            return false;
        }
        i += 1;
    }
    proof {
        assert(spec_to_upper(a@) =~= spec_to_upper(b@));
    }
    true
}

/// Upper-case one character, ASCII only.
fn s_upper(c: char) -> (r: char)
    ensures
        r == spec_upper_char(c),
{
    if 'a' <= c && c <= 'z' {
        ((c as u8) - 32) as char
    } else {
        c
    }
}

/// `n` occurs as a contiguous substring of `h`.
pub open spec fn spec_contains(h: Seq<char>, n: Seq<char>) -> bool {
    exists|i: int| 0 <= i <= h.len() - n.len() && #[trigger] h.subrange(i, i + n.len()) == n
}

/// Whether `needle` occurs as a contiguous substring of `hay`.
pub fn str_contains(hay: &str, needle: &str) -> (r: bool)
    ensures
        r == spec_contains(hay@, needle@),
{
    let hl = hay.unicode_len();
    let nl = needle.unicode_len();
    if nl > hl {
        return false;
    }
    if nl == 0 {
        proof {
            assert(hay@.subrange(0, 0 + needle@.len() as int) =~= needle@);
        }
        return true;
    }
    let mut i: usize = 0;
    while i <= hl - nl
        invariant
            1 <= nl <= hl,
            hl == hay@.len() && nl == needle@.len(),
            0 <= i <= hl - nl + 1,
            forall|k: int| 0 <= k < i ==> #[trigger] hay@.subrange(k, k + nl) != needle@,
        decreases hl - nl + 1 - i,
    {
        let mut j: usize = 0;
        let mut matched = true;
        while j < nl
            invariant
                nl <= hl,
                hl == hay@.len() && nl == needle@.len(),
                0 <= i <= hl - nl,
                0 <= j <= nl,
                matched ==> forall|m: int| 0 <= m < j ==> hay@[i + m] == needle@[m],
                !matched ==> hay@.subrange(i as int, i + nl) != needle@,
            decreases nl - j,
        {
            if hay.get_char(i + j) != needle.get_char(j) {
                proof {
                    assert(hay@.subrange(i as int, i + nl)[j as int] == hay@[i + j]);
                }
                matched = false;
                j = nl;
            } else {
                j += 1;
            }
        }
        if matched {
            proof {
                assert(hay@.subrange(i as int, i + nl) =~= needle@);
            }
            return true;
        }
        i += 1;
    }
    proof {
        assert(!spec_contains(hay@, needle@)) by {
            if spec_contains(hay@, needle@) {
                let k = choose|k: int|
                    0 <= k <= hay@.len() - needle@.len() && #[trigger] hay@.subrange(
                        k,
                        k + needle@.len(),
                    ) == needle@;
                assert(hay@.subrange(k, k + needle@.len()) != needle@);
            }
        }
    }
    false
}

/// A decimal digit.
pub open spec fn is_digit(c: char) -> bool {
    '0' <= c && c <= '9'
}

/// Every character of `s` is a decimal digit.
pub open spec fn all_digits(s: Seq<char>) -> bool {
    forall|i: int| 0 <= i < s.len() ==> is_digit(#[trigger] s[i])
}

/// Numeric value of one digit character.
pub open spec fn digit_val(c: char) -> int {
    c as int - '0' as int
}

/// Numeric value of a digit string, most significant digit first.
pub open spec fn digits_val(s: Seq<char>) -> int
    decreases s.len(),
{
    if s.len() == 0 {
        0
    } else {
        digits_val(s.drop_last()) * 10 + digit_val(s.last())
    }
}

/// A digit string's value is non-negative.
pub proof fn lemma_digits_val_nonneg(s: Seq<char>)
    requires
        all_digits(s),
    ensures
        digits_val(s) >= 0,
    decreases s.len(),
{
    if s.len() > 0 {
        assert(all_digits(s.drop_last()));
        lemma_digits_val_nonneg(s.drop_last());
    }
}

/// Appending digits never shrinks a digit string's value.
pub proof fn lemma_digits_val_prefix(s: Seq<char>, i: int)
    requires
        all_digits(s),
        0 <= i <= s.len(),
    ensures
        digits_val(s.subrange(0, i)) <= digits_val(s),
    decreases s.len() - i,
{
    if i < s.len() {
        lemma_digits_val_prefix(s, i + 1);
        let p = s.subrange(0, i);
        let q = s.subrange(0, i + 1);
        assert(q.drop_last() =~= p);
        assert(all_digits(p));
        lemma_digits_val_nonneg(p);
        assert(digits_val(q) == digits_val(p) * 10 + digit_val(q.last()));
        assert(digit_val(q.last()) >= 0);
        assert(digits_val(p) * 10 >= digits_val(p)) by (nonlinear_arith)
            requires
                digits_val(p) >= 0,
        ;
    } else {
        assert(s.subrange(0, i) =~= s);
    }
}

/// What a decimal `u8` field parses to: the digits' value when the text is
/// nonempty, all digits, and in range; nothing otherwise.
pub open spec fn spec_parse_u8(s: Seq<char>) -> Option<u8> {
    if s.len() > 0 && all_digits(s) && digits_val(s) <= 255 {
        Some(digits_val(s) as u8)
    } else {
        None
    }
}

/// Parse a decimal `u8`. Returns the value exactly when the text is
/// nonempty, consists of digits only, and names a value up to 255 (leading
/// zeros allowed); returns nothing on any other text.
pub fn parse_u8(s: &str) -> (r: Option<u8>)
    ensures
        r == spec_parse_u8(s@),
{
    let len = s.unicode_len();
    if len == 0 {
        return None;
    }
    let mut val: u32 = 0;
    let mut i: usize = 0;
    while i < len
        invariant
            0 <= i <= len,
            len == s@.len(),
            all_digits(s@.subrange(0, i as int)),
            val == digits_val(s@.subrange(0, i as int)),
            val <= 255,
        decreases len - i,
    {
        let c = s.get_char(i);
        if c < '0' || c > '9' {
            assert(!all_digits(s@)) by {
                assert(!is_digit(s@[i as int]));
            }
            return None;
        }
        let d: u32 = (c as u32) - ('0' as u32);
        let next: u32 = val * 10 + d;
        proof {
            assert(s@.subrange(0, i + 1 as int).drop_last() =~= s@.subrange(0, i as int));
            assert(digits_val(s@.subrange(0, i + 1 as int)) == val * 10 + d);
        }
        if next > 255 {
            // any longer digit string only grows; the value cannot fit
            if i + 1 < len {
                let ghost full = s@;
                assert(spec_parse_u8(s@) is None) by {
                    if all_digits(full) && digits_val(full) <= 255 {
                        lemma_digits_val_prefix(full, i + 1);
                        assert(digits_val(full.subrange(0, i + 1)) <= digits_val(full));
                    }
                }
            } else {
                assert(s@.subrange(0, i + 1 as int) =~= s@);
            }
            return None;
        }
        val = next;
        i += 1;
    }
    proof {
        assert(s@.subrange(0, len as int) =~= s@);
    }
    Some(val as u8)
}

/// The digit character of one value below ten.
pub open spec fn spec_digit_char(d: int) -> char {
    if d == 0 {
        '0'
    } else if d == 1 {
        '1'
    } else if d == 2 {
        '2'
    } else if d == 3 {
        '3'
    } else if d == 4 {
        '4'
    } else if d == 5 {
        '5'
    } else if d == 6 {
        '6'
    } else if d == 7 {
        '7'
    } else if d == 8 {
        '8'
    } else {
        '9'
    }
}

/// One digit as a string slice.
pub fn digit_str(d: u8) -> (r: &'static str)
    requires
        d < 10,
    ensures
        r@ =~= seq![spec_digit_char(d as int)],
{
    proof {
        reveal_strlit("0");
        reveal_strlit("1");
        reveal_strlit("2");
        reveal_strlit("3");
        reveal_strlit("4");
        reveal_strlit("5");
        reveal_strlit("6");
        reveal_strlit("7");
        reveal_strlit("8");
        reveal_strlit("9");
    }
    match d {
        0 => "0",
        1 => "1",
        2 => "2",
        3 => "3",
        4 => "4",
        5 => "5",
        6 => "6",
        7 => "7",
        8 => "8",
        _ => "9",
    }
}

/// Canonical decimal rendering of a `u8`: no leading zeros, one to three
/// digits.
pub open spec fn spec_u8_string(v: u8) -> Seq<char> {
    if v < 10 {
        seq![spec_digit_char(v as int)]
    } else if v < 100 {
        seq![spec_digit_char(v as int / 10), spec_digit_char(v as int % 10)]
    } else {
        seq![
            spec_digit_char(v as int / 100),
            spec_digit_char((v as int / 10) % 10),
            spec_digit_char(v as int % 10),
        ]
    }
}

/// Render a `u8` in decimal, without leading zeros.
pub fn u8_to_string(v: u8) -> (out: String)
    ensures
        out@ == spec_u8_string(v),
{
    let mut out = String::new();
    if v >= 100 {
        out.append(digit_str(v / 100));
        out.append(digit_str((v / 10) % 10));
        out.append(digit_str(v % 10));
        proof {
            assert(out@ =~= spec_u8_string(v));
        }
    } else if v >= 10 {
        out.append(digit_str(v / 10));
        out.append(digit_str(v % 10));
        proof {
            assert(out@ =~= spec_u8_string(v));
        }
    } else {
        out.append(digit_str(v));
        proof {
            assert(out@ =~= spec_u8_string(v));
        }
    }
    out
}

/// The canonical decimal rendering of a value names exactly that value: it
/// is a nonempty digit string whose numeric value is the value itself.
pub proof fn lemma_u8_string_valid(v: u8)
    ensures
        all_digits(spec_u8_string(v)),
        digits_val(spec_u8_string(v)) == v,
        1 <= spec_u8_string(v).len() <= 3,
        spec_parse_u8(spec_u8_string(v)) == Some(v),
{
    let s = spec_u8_string(v);
    assert(digits_val(Seq::<char>::empty()) == 0);
    if v < 10 {
        let d = spec_digit_char(v as int);
        assert(s =~= seq![d]);
        assert(seq![d].drop_last() =~= Seq::<char>::empty());
        assert(digits_val(seq![d]) == digits_val(Seq::<char>::empty()) * 10 + digit_val(d));
    } else if v < 100 {
        let hi = spec_digit_char(v as int / 10);
        let lo = spec_digit_char(v as int % 10);
        assert(s =~= seq![hi, lo]);
        assert(seq![hi].drop_last() =~= Seq::<char>::empty());
        assert(digits_val(seq![hi]) == digits_val(Seq::<char>::empty()) * 10 + digit_val(hi));
        assert(seq![hi, lo].drop_last() =~= seq![hi]);
        assert(digits_val(seq![hi, lo]) == digits_val(seq![hi]) * 10 + digit_val(lo));
    } else {
        let a = spec_digit_char(v as int / 100);
        let b = spec_digit_char((v as int / 10) % 10);
        let c = spec_digit_char(v as int % 10);
        assert(s =~= seq![a, b, c]);
        assert(seq![a].drop_last() =~= Seq::<char>::empty());
        assert(digits_val(seq![a]) == digits_val(Seq::<char>::empty()) * 10 + digit_val(a));
        assert(seq![a, b].drop_last() =~= seq![a]);
        assert(digits_val(seq![a, b]) == digits_val(seq![a]) * 10 + digit_val(b));
        assert(seq![a, b, c].drop_last() =~= seq![a, b]);
        assert(digits_val(seq![a, b, c]) == digits_val(seq![a, b]) * 10 + digit_val(c));
    }
}

/// Two-digit, zero-padded rendering of a value below 100.
pub open spec fn spec_two_digit_string(v: u8) -> Seq<char> {
    seq![spec_digit_char(v as int / 10), spec_digit_char(v as int % 10)]
}

/// Render a value below 100 as exactly two digits, zero-padded.
pub fn two_digit_string(v: u8) -> (out: String)
    requires
        v < 100,
    ensures
        out@ == spec_two_digit_string(v),
{
    let mut out = String::new();
    out.append(digit_str(v / 10));
    out.append(digit_str(v % 10));
    proof {
        assert(out@ =~= spec_two_digit_string(v));
    }
    out
}

} // verus!
