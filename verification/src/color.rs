//! Colors as plain 8-bit RGB triples, the named palette accepted from remote
//! clients, and the wire formats colors travel in.

use vstd::prelude::*;

use crate::parse::{
    all_digits, parse_u8, spec_parse_u8, spec_to_upper, spec_u8_string, str_eq_ignore_case,
    u8_to_string,
};

verus! {

/// One display color.
#[derive(Clone, Copy, PartialEq, Eq, Structural, Debug)]
pub struct Rgb {
    pub r: u8,
    pub g: u8,
    pub b: u8,
}

impl Rgb {
    /// Build a color from its components.
    pub fn new(r: u8, g: u8, b: u8) -> (c: Rgb)
        ensures
            c == (Rgb { r, g, b }),
    {
        Rgb { r, g, b }
    }

    /// The color the display boots with (purple).
    pub fn boot_color() -> (c: Rgb)
        ensures
            c == (Rgb { r: 128, g: 0, b: 128 }),
    {
        Rgb { r: 128, g: 0, b: 128 }
    }

    /// Black; what a cleared pixel holds.
    pub fn black() -> (c: Rgb)
        ensures
            c == (Rgb { r: 0, g: 0, b: 0 }),
    {
        Rgb { r: 0, g: 0, b: 0 }
    }
}

/// The color a palette name stands for, over the upper-cased name. Unknown
/// names stand for nothing.
pub open spec fn spec_color_of_name(up: Seq<char>) -> Option<Rgb> {
    if up == "RED"@ {
        Some(Rgb { r: 255, g: 0, b: 0 })
    } else if up == "BLUE"@ {
        Some(Rgb { r: 0, g: 0, b: 255 })
    } else if up == "GREEN"@ {
        Some(Rgb { r: 0, g: 255, b: 0 })
    } else if up == "ORANGE"@ {
        Some(Rgb { r: 255, g: 165, b: 0 })
    } else if up == "YELLOW"@ {
        Some(Rgb { r: 255, g: 255, b: 0 })
    } else if up == "PURPLE"@ {
        Some(Rgb { r: 128, g: 0, b: 128 })
    } else if up == "PINK"@ {
        Some(Rgb { r: 255, g: 192, b: 203 })
    } else if up == "WHITE"@ {
        Some(Rgb { r: 255, g: 255, b: 255 })
    } else if up == "CYAN"@ {
        Some(Rgb { r: 0, g: 255, b: 255 })
    } else if up == "GOLD"@ {
        Some(Rgb { r: 255, g: 215, b: 0 })
    } else {
        None
    }
}

/// Look a color up by its palette name, ASCII-case-insensitively. Names
/// longer than 32 characters are rejected outright, as the firmware's
/// bounded name buffer demanded.
pub fn color_from_name(text: &str) -> (r: Option<Rgb>)
    ensures
        text@.len() > 32 ==> r is None,
        text@.len() <= 32 ==> r == spec_color_of_name(spec_to_upper(text@)),
{
    if text.unicode_len() > 32 {
        return None;
    }
    proof {
        reveal_strlit("RED");
        reveal_strlit("BLUE");
        reveal_strlit("GREEN");
        reveal_strlit("ORANGE");
        reveal_strlit("YELLOW");
        reveal_strlit("PURPLE");
        reveal_strlit("PINK");
        reveal_strlit("WHITE");
        reveal_strlit("CYAN");
        reveal_strlit("GOLD");
        assert(spec_to_upper("RED"@) =~= "RED"@);
        assert(spec_to_upper("BLUE"@) =~= "BLUE"@);
        assert(spec_to_upper("GREEN"@) =~= "GREEN"@);
        assert(spec_to_upper("ORANGE"@) =~= "ORANGE"@);
        assert(spec_to_upper("YELLOW"@) =~= "YELLOW"@);
        assert(spec_to_upper("PURPLE"@) =~= "PURPLE"@);
        assert(spec_to_upper("PINK"@) =~= "PINK"@);
        assert(spec_to_upper("WHITE"@) =~= "WHITE"@);
        assert(spec_to_upper("CYAN"@) =~= "CYAN"@);
        assert(spec_to_upper("GOLD"@) =~= "GOLD"@);
    }
    if str_eq_ignore_case(text, "RED") {
        Some(Rgb { r: 255, g: 0, b: 0 })
    } else if str_eq_ignore_case(text, "BLUE") {
        Some(Rgb { r: 0, g: 0, b: 255 })
    } else if str_eq_ignore_case(text, "GREEN") {
        Some(Rgb { r: 0, g: 255, b: 0 })
    } else if str_eq_ignore_case(text, "ORANGE") {
        Some(Rgb { r: 255, g: 165, b: 0 })
    } else if str_eq_ignore_case(text, "YELLOW") {
        Some(Rgb { r: 255, g: 255, b: 0 })
    } else if str_eq_ignore_case(text, "PURPLE") {
        Some(Rgb { r: 128, g: 0, b: 128 })
    } else if str_eq_ignore_case(text, "PINK") {
        Some(Rgb { r: 255, g: 192, b: 203 })
    } else if str_eq_ignore_case(text, "WHITE") {
        Some(Rgb { r: 255, g: 255, b: 255 })
    } else if str_eq_ignore_case(text, "CYAN") {
        Some(Rgb { r: 0, g: 255, b: 255 })
    } else if str_eq_ignore_case(text, "GOLD") {
        Some(Rgb { r: 255, g: 215, b: 0 })
    } else {
        None
    }
}

/// `i` and `j` split `s` into three comma-separated decimal `u8` components.
pub open spec fn rgb_split_at(s: Seq<char>, i: int, j: int) -> bool {
    &&& 0 <= i < j < s.len()
    &&& s[i] == ','
    &&& s[j] == ','
    &&& spec_parse_u8(s.subrange(0, i)) is Some
    &&& spec_parse_u8(s.subrange(i + 1, j)) is Some
    &&& spec_parse_u8(s.subrange(j + 1, s.len() as int)) is Some
}

/// What a color line parses to: the triple of its three comma-separated
/// decimal components when the line has exactly that shape, nothing
/// otherwise.
pub open spec fn spec_parse_rgb(s: Seq<char>) -> Option<Rgb> {
    if exists|i: int, j: int| rgb_split_at(s, i, j) {
        let (i, j) = choose|i: int, j: int| rgb_split_at(s, i, j);
        Some(
            Rgb {
                r: spec_parse_u8(s.subrange(0, i))->0,
                g: spec_parse_u8(s.subrange(i + 1, j))->0,
                b: spec_parse_u8(s.subrange(j + 1, s.len() as int))->0,
            },
        )
    } else {
        None
    }
}

/// Only one split can satisfy [`rgb_split_at`]: the components are digit
/// strings, so the splitting commas are the first and second commas of the
/// line.
pub proof fn lemma_rgb_split_unique(s: Seq<char>, i: int, j: int, i2: int, j2: int)
    requires
        rgb_split_at(s, i, j),
        rgb_split_at(s, i2, j2),
    ensures
        i == i2,
        j == j2,
{
    if i < i2 {
        assert(is_comma_free(s.subrange(0, i2)));
        assert(s.subrange(0, i2)[i] == ',');
    }
    if i2 < i {
        assert(is_comma_free(s.subrange(0, i)));
        assert(s.subrange(0, i)[i2] == ',');
    }
    if j < j2 {
        assert(is_comma_free(s.subrange(i2 + 1, j2)));
        assert(s.subrange(i2 + 1, j2)[j - i2 - 1] == ',');
    }
    if j2 < j {
        assert(is_comma_free(s.subrange(i + 1, j)));
        assert(s.subrange(i + 1, j)[j2 - i - 1] == ',');
    }
}

/// No character of `s` is a comma. A digit string is comma-free.
pub open spec fn is_comma_free(s: Seq<char>) -> bool {
    forall|k: int| 0 <= k < s.len() ==> s[k] != ','
}

/// Find the first comma of `s` at or after `from`.
fn find_comma(s: &str, from: usize) -> (r: Option<usize>)
    requires
        from <= s@.len(),
    ensures
        r matches Some(k) ==> from <= k < s@.len() && s@[k as int] == ',' && forall|m: int|
            from <= m < k ==> s@[m] != ',',
        r is None ==> forall|m: int| from <= m < s@.len() ==> s@[m] != ',',
{
    let len = s.unicode_len();
    let mut k: usize = from;
    while k < len
        invariant
            from <= k <= len,
            len == s@.len(),
            forall|m: int| from <= m < k ==> s@[m] != ',',
        decreases len - k,
    {
        if s.get_char(k) == ',' {
            return Some(k);
        }
        k += 1;
    }
    None
}

/// Parse a `r,g,b` color line. Returns the triple exactly when the line is
/// three comma-separated decimal components each fitting a `u8`; any other
/// line is rejected.
pub fn parse_rgb(s: &str) -> (r: Option<Rgb>)
    ensures
        r == spec_parse_rgb(s@),
{
    let ghost sv = s@;
    let len = s.unicode_len();
    let first = match find_comma(s, 0) {
        Some(k) => k,
        None => {
            proof {
                assert(!exists|i: int, j: int| rgb_split_at(sv, i, j)) by {
                    if exists|i: int, j: int| rgb_split_at(sv, i, j) {
                        let (i, j) = choose|i: int, j: int| rgb_split_at(sv, i, j);
                        assert(sv[i] == ',');
                    }
                }
            }
            return None;
        },
    };
    let second = match find_comma(s, first + 1) {
        Some(k) => k,
        None => {
            proof {
                lemma_only_comma(sv, first as int);
            }
            return None;
        },
    };
    if let Some(extra) = find_comma(s, second + 1) {
        proof {
            assert(!exists|i: int, j: int| rgb_split_at(sv, i, j)) by {
                if exists|i: int, j: int| rgb_split_at(sv, i, j) {
                    let (i, j) = choose|i: int, j: int| rgb_split_at(sv, i, j);
                    lemma_split_is_first_two(sv, i, j, first as int, second as int);
                    assert(all_digits(sv.subrange(j + 1, sv.len() as int)));
                    assert(sv.subrange(j + 1, sv.len() as int)[extra - j - 1] == ',');
                }
            }
        }
        return None;
    }
    let p1 = s.substring_char(0, first);
    let p2 = s.substring_char(first + 1, second);
    let p3 = s.substring_char(second + 1, len);
    let v1 = parse_u8(p1);
    let v2 = parse_u8(p2);
    let v3 = parse_u8(p3);
    match (v1, v2, v3) {
        (Some(r), Some(g), Some(b)) => {
            proof {
                assert(rgb_split_at(sv, first as int, second as int));
                let (i, j) = choose|i: int, j: int| rgb_split_at(sv, i, j);
                lemma_rgb_split_unique(sv, i, j, first as int, second as int);
            }
            Some(Rgb { r, g, b })
        },
        _ => {
            proof {
                assert(!exists|i: int, j: int| rgb_split_at(sv, i, j)) by {
                    if exists|i: int, j: int| rgb_split_at(sv, i, j) {
                        let (i, j) = choose|i: int, j: int| rgb_split_at(sv, i, j);
                        lemma_split_is_first_two(sv, i, j, first as int, second as int);
                    }
                }
            }
            None
        },
    }
}

/// Helper for [`parse_rgb`]: a satisfying split's commas are exactly the
/// first and the second comma of the line.
proof fn lemma_split_is_first_two(s: Seq<char>, i: int, j: int, first: int, second: int)
    requires
        rgb_split_at(s, i, j),
        0 <= first < s.len(),
        s[first] == ',',
        forall|m: int| 0 <= m < first ==> s[m] != ',',
        first < second < s.len(),
        s[second] == ',',
        forall|m: int| first < m < second ==> s[m] != ',',
    ensures
        i == first,
        j == second,
{
    if i < first {
        assert(s[i] == ',');
    }
    if first < i {
        assert(all_digits(s.subrange(0, i)));
        assert(s.subrange(0, i)[first] == ',');
        assert(crate::parse::is_digit(','));
    }
    if j < second {
        assert(first < j);
        assert(s[j] == ',');
    }
    if second < j {
        assert(all_digits(s.subrange(i + 1, j)));
        assert(s.subrange(i + 1, j)[second - i - 1] == ',');
        assert(crate::parse::is_digit(','));
    }
}

/// Helper for [`parse_rgb`]: a line with only one comma admits no split.
proof fn lemma_only_comma(s: Seq<char>, first: int)
    requires
        0 <= first < s.len(),
        s[first] == ',',
        forall|m: int| 0 <= m < first ==> s[m] != ',',
        forall|m: int| first < m < s.len() ==> s[m] != ',',
    ensures
        !exists|i: int, j: int| rgb_split_at(s, i, j),
{
    if exists|i: int, j: int| rgb_split_at(s, i, j) {
        let (i, j) = choose|i: int, j: int| rgb_split_at(s, i, j);
        assert(s[i] == ',' && s[j] == ',' && i != j);
        if i != first {
            assert(s[i] != ',');
        }
        if j != first {
            assert(s[j] != ',');
        }
    }
}

/// The `r,g,b` state line a color is published as.
pub open spec fn spec_rgb_string(c: Rgb) -> Seq<char> {
    spec_u8_string(c.r) + ","@ + spec_u8_string(c.g) + ","@ + spec_u8_string(c.b)
}

/// Round trip of the color wire format: the `r,g,b` line a color is
/// published as parses back to exactly that color.
pub proof fn lemma_rgb_string_round_trip(c: Rgb)
    ensures
        spec_parse_rgb(spec_rgb_string(c)) == Some(c),
{
    reveal_strlit(",");
    crate::parse::lemma_u8_string_valid(c.r);
    crate::parse::lemma_u8_string_valid(c.g);
    crate::parse::lemma_u8_string_valid(c.b);
    let a = spec_u8_string(c.r);
    let b = spec_u8_string(c.g);
    let d = spec_u8_string(c.b);
    let s = spec_rgb_string(c);
    let i = a.len() as int;
    let j = i + 1 + b.len() as int;
    assert(s.len() == a.len() + b.len() + d.len() + 2);
    assert(s[i] == ',');
    assert(s[j] == ',');
    assert(s.subrange(0, i) =~= a);
    assert(s.subrange(i + 1, j) =~= b);
    assert(s.subrange(j + 1, s.len() as int) =~= d);
    assert(rgb_split_at(s, i, j));
    let (i2, j2) = choose|i2: int, j2: int| rgb_split_at(s, i2, j2);
    lemma_rgb_split_unique(s, i2, j2, i, j);
}

impl Rgb {
    /// Format the color as the `r,g,b` line its state topic carries.
    pub fn to_state_string(&self) -> (out: String)
        ensures
            out@ == spec_rgb_string(*self),
    {
        let mut out = u8_to_string(self.r);
        out.append(",");
        let g = u8_to_string(self.g);
        out.append(g.as_str());
        out.append(",");
        let b = u8_to_string(self.b);
        out.append(b.as_str());
        proof {
            assert(out@ =~= spec_rgb_string(*self));
        }
        out
    }
}

} // verus!
