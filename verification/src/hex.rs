//! The hex text codec of a color: parsing `#RRGGBB` (with the two
//! case-insensitive aliases `white` and `lightblue`) and formatting the
//! canonical uppercase `#RRGGBB` form.

use vstd::prelude::*;

use crate::colors::{ColorError, ColorRGB};

verus! {

/// Characters that hex input may carry as decoration and that are stripped
/// before the alias names are tried: spaces, hyphens, underscores.
pub open spec fn is_sep(c: char) -> bool {
    c == ' ' || c == '-' || c == '_'
}

/// The input with every separator removed, other characters kept in order.
pub open spec fn strip(s: Seq<char>) -> Seq<char>
    decreases s.len(),
{
    if s.len() == 0 {
        Seq::empty()
    } else {
        let rest = strip(s.drop_last());
        if is_sep(s.last()) {
            rest
        } else {
            rest.push(s.last())
        }
    }
}

/// One character of an alias name, matched case-insensitively: the input
/// char is the lowercase letter itself or its uppercase form 32 below it.
pub open spec fn lower_matches(c: char, l: char) -> bool {
    c == l || c as int == l as int - 32
}

/// The stripped input spells the given lowercase alias, ignoring case.
pub open spec fn matches_alias(s: Seq<char>, alias: Seq<char>) -> bool {
    s.len() == alias.len() && forall|i: int| 0 <= i < s.len() ==> lower_matches(s[i], alias[i])
}

/// The alias for white, `(255, 255, 255)`.
pub open spec fn white_alias() -> Seq<char> {
    seq!['w', 'h', 'i', 't', 'e']
}

/// The alias for light blue, `(48, 48, 240)`.
pub open spec fn lightblue_alias() -> Seq<char> {
    seq!['l', 'i', 'g', 'h', 't', 'b', 'l', 'u', 'e']
}

/// A hexadecimal digit: `0-9`, `a-f` or `A-F`.
pub open spec fn is_hex_digit(c: char) -> bool {
    (48 <= c as int && c as int <= 57) || (97 <= c as int && c as int <= 102) || (65 <= c as int
        && c as int <= 70)
}

/// The numeric value of a hexadecimal digit.
pub open spec fn hex_digit_val(c: char) -> int {
    if 48 <= c as int && c as int <= 57 {
        c as int - 48
    } else if 97 <= c as int && c as int <= 102 {
        c as int - 87
    } else {
        c as int - 55
    }
}

/// A well-formed hex color literal: `#` followed by exactly six hex digits.
pub open spec fn is_hex_form(s: Seq<char>) -> bool {
    s.len() == 7 && s[0] == '#' && forall|i: int| 1 <= i < 7 ==> is_hex_digit(s[i])
}

/// The color a well-formed hex literal denotes: each two-digit group is one
/// channel in base 16.
pub open spec fn hex_color_of(s: Seq<char>) -> ColorRGB {
    ColorRGB {
        r: (hex_digit_val(s[1]) * 16 + hex_digit_val(s[2])) as u8,
        g: (hex_digit_val(s[3]) * 16 + hex_digit_val(s[4])) as u8,
        b: (hex_digit_val(s[5]) * 16 + hex_digit_val(s[6])) as u8,
    }
}

/// The whole of `from_hex`: aliases first (on the stripped,
/// case-insensitive input), then the strict `#RRGGBB` form, and
/// everything else is rejected.
pub open spec fn from_hex_spec(s: Seq<char>) -> Result<ColorRGB, ColorError> {
    if matches_alias(strip(s), white_alias()) {
        Ok(ColorRGB { r: 255, g: 255, b: 255 })
    } else if matches_alias(strip(s), lightblue_alias()) {
        Ok(ColorRGB { r: 48, g: 48, b: 240 })
    } else if is_hex_form(s) {
        Ok(hex_color_of(s))
    } else {
        Err(ColorError::InvalidColor)
    }
}

/// The uppercase hex digit of a value `0..=15`.
pub open spec fn upper_hex_char(d: int) -> char {
    if d == 0 {
        '0'
    } else if d == 1 {
        '1'
    } else if d == 2 {
        '2'
    } else if d == 3 {
        '3'
    } else if d == 4 {
        '4'
    } else if d == 5 {
        '5'
    } else if d == 6 {
        '6'
    } else if d == 7 {
        '7'
    } else if d == 8 {
        '8'
    } else if d == 9 {
        '9'
    } else if d == 10 {
        'A'
    } else if d == 11 {
        'B'
    } else if d == 12 {
        'C'
    } else if d == 13 {
        'D'
    } else if d == 14 {
        'E'
    } else {
        'F'
    }
}

/// The canonical hex text of a color: `#` and six uppercase digits.
pub open spec fn to_hex_spec(c: ColorRGB) -> Seq<char> {
    seq![
        '#',
        upper_hex_char(c.r as int / 16),
        upper_hex_char(c.r as int % 16),
        upper_hex_char(c.g as int / 16),
        upper_hex_char(c.g as int % 16),
        upper_hex_char(c.b as int / 16),
        upper_hex_char(c.b as int % 16),
    ]
}

/// A lowercase hex letter raised to its uppercase form; digits and anything
/// already uppercase stay as they are.
pub open spec fn ascii_upper_hex(c: char) -> char {
    if 97 <= c as int && c as int <= 102 {
        upper_hex_char(c as int - 87)
    } else {
        c
    }
}

/// The input, uppercased character by character.
pub open spec fn upper_hex_seq(s: Seq<char>) -> Seq<char> {
    s.map_values(|c: char| ascii_upper_hex(c))
}

/// Splitting a two-digit group value back into its digits.
proof fn lemma_split_byte(a: int, b: int)
    requires
        0 <= a < 16,
        0 <= b < 16,
    ensures
        (a * 16 + b) / 16 == a,
        (a * 16 + b) % 16 == b,
{
    assert((a * 16 + b) / 16 == a && (a * 16 + b) % 16 == b) by (nonlinear_arith)
        requires
            0 <= a < 16 && 0 <= b < 16,
    ;
}

/// Formatting the value of a hex digit gives the digit back, uppercased.
proof fn lemma_digit_upper(c: char)
    requires
        is_hex_digit(c),
    ensures
        upper_hex_char(hex_digit_val(c)) == ascii_upper_hex(c),
        0 <= hex_digit_val(c) < 16,
{
}

/// Stripping leaves a string without separators untouched.
proof fn lemma_strip_no_sep(s: Seq<char>)
    requires
        forall|i: int| 0 <= i < s.len() ==> !is_sep(s[i]),
    ensures
        strip(s) == s,
    decreases s.len(),
{
    if s.len() == 0 {
        assert(strip(s) =~= s);
    } else {
        lemma_strip_no_sep(s.drop_last());
        assert(strip(s) =~= s);
    }
}

/// Hex round trip: parsing a well-formed `#RRGGBB` literal succeeds, and
/// formatting the parsed color gives the same literal back, uppercased.
pub proof fn lemma_hex_round_trip(s: Seq<char>)
    requires
        is_hex_form(s),
    ensures
        from_hex_spec(s) == Ok::<ColorRGB, ColorError>(hex_color_of(s)),
        to_hex_spec(hex_color_of(s)) == upper_hex_seq(s),
{
    assert forall|i: int| 0 <= i < s.len() implies !is_sep(s[i]) by {
        if i >= 1 {
            assert(is_hex_digit(s[i]));
        }
    }
    lemma_strip_no_sep(s);
    assert(!matches_alias(strip(s), white_alias()));
    assert(!matches_alias(strip(s), lightblue_alias()));

    let c = hex_color_of(s);
    lemma_digit_upper(s[1]);
    lemma_digit_upper(s[2]);
    lemma_digit_upper(s[3]);
    lemma_digit_upper(s[4]);
    lemma_digit_upper(s[5]);
    lemma_digit_upper(s[6]);
    lemma_split_byte(hex_digit_val(s[1]), hex_digit_val(s[2]));
    lemma_split_byte(hex_digit_val(s[3]), hex_digit_val(s[4]));
    lemma_split_byte(hex_digit_val(s[5]), hex_digit_val(s[6]));
    assert(ascii_upper_hex('#') == '#');
    assert(to_hex_spec(c) =~= upper_hex_seq(s));
}

/// The numeric value of one hex digit character, or nothing when the
/// character is no hex digit.
fn hex_digit(c: char) -> (r: Option<u8>)
    ensures
        match r {
            Some(v) => is_hex_digit(c) && v as int == hex_digit_val(c) && v < 16,
            None => !is_hex_digit(c),
        },
{
    let u = c as u32;
    if 48 <= u && u <= 57 {
        Some((u - 48) as u8)
    } else if 97 <= u && u <= 102 {
        Some((u - 87) as u8)
    } else if 65 <= u && u <= 70 {
        Some((u - 55) as u8)
    } else {
        None
    }
}

/// The single-character string of one uppercase hex digit.
fn hex_digit_str(d: u8) -> (s: &'static str)
    requires
        d < 16,
    ensures
        s@ == seq![upper_hex_char(d as int)],
{
    proof {
        reveal_strlit("0");
        reveal_strlit("1");
        reveal_strlit("2");
        reveal_strlit("3");
        reveal_strlit("4");
        reveal_strlit("5");
        reveal_strlit("6");
        reveal_strlit("7");
        reveal_strlit("8");
        reveal_strlit("9");
        reveal_strlit("A");
        reveal_strlit("B");
        reveal_strlit("C");
        reveal_strlit("D");
        reveal_strlit("E");
        reveal_strlit("F");
    }
    let s: &'static str = if d == 0 {
        "0"
    } else if d == 1 {
        "1"
    } else if d == 2 {
        "2"
    } else if d == 3 {
        "3"
    } else if d == 4 {
        "4"
    } else if d == 5 {
        "5"
    } else if d == 6 {
        "6"
    } else if d == 7 {
        "7"
    } else if d == 8 {
        "8"
    } else if d == 9 {
        "9"
    } else if d == 10 {
        "A"
    } else if d == 11 {
        "B"
    } else if d == 12 {
        "C"
    } else if d == 13 {
        "D"
    } else if d == 14 {
        "E"
    } else {
        "F"
    };
    proof {
        assert(s@ =~= seq![upper_hex_char(d as int)]);
    }
    s
}

/// Whether this character matches the given lowercase letter, ignoring case.
fn char_matches(c: char, lower: char, upper: char) -> (b: bool)
    requires
        lower as int == upper as int + 32,
    ensures
        b == lower_matches(c, lower),
{
    c == lower || c == upper
}

impl ColorRGB {
    /// Parses a color from hex text. After stripping spaces, hyphens and
    /// underscores, the names `white` and `lightblue` are accepted in any
    /// case; otherwise the input must be `#` followed by exactly six hex
    /// digits. Everything else is `InvalidColor`.
    pub fn from_hex(s: &str) -> (r: Result<ColorRGB, ColorError>)
        ensures
            r == from_hex_spec(s@),
    {
        let n = s.unicode_len();
        let mut chars: Vec<char> = Vec::new();
        let mut i: usize = 0;
        while i < n
            invariant
                i <= n,
                n == s@.len(),
                chars@ == s@.subrange(0, i as int),
            decreases n - i,
        {
            chars.push(s.get_char(i));
            proof {
                assert(chars@ =~= s@.subrange(0, i + 1));
            }
            i = i + 1;
        }
        proof {
            assert(chars@ =~= s@);
        }

        let mut stripped: Vec<char> = Vec::new();
        let mut i: usize = 0;
        while i < chars.len()
            invariant
                i <= chars@.len(),
                chars@ == s@,
                stripped@ == strip(s@.subrange(0, i as int)),
            decreases chars@.len() - i,
        {
            let c = chars[i];
            proof {
                assert(s@.subrange(0, i + 1).drop_last() =~= s@.subrange(0, i as int));
            }
            if !(c == ' ' || c == '-' || c == '_') {
                stripped.push(c);
            }
            i = i + 1;
        }
        proof {
            assert(s@.subrange(0, s@.len() as int) =~= s@);
        }

        if stripped.len() == 5 {
            if char_matches(stripped[0], 'w', 'W') && char_matches(stripped[1], 'h', 'H')
                && char_matches(stripped[2], 'i', 'I') && char_matches(stripped[3], 't', 'T')
                && char_matches(stripped[4], 'e', 'E') {
                return Ok(ColorRGB { r: 255, g: 255, b: 255 });
            }
        }
        if stripped.len() == 9 {
            if char_matches(stripped[0], 'l', 'L') && char_matches(stripped[1], 'i', 'I')
                && char_matches(stripped[2], 'g', 'G') && char_matches(stripped[3], 'h', 'H')
                && char_matches(stripped[4], 't', 'T') && char_matches(stripped[5], 'b', 'B')
                && char_matches(stripped[6], 'l', 'L') && char_matches(stripped[7], 'u', 'U')
                && char_matches(stripped[8], 'e', 'E') {
                return Ok(ColorRGB { r: 48, g: 48, b: 240 });
            }
        }
        proof {
            assert(!matches_alias(strip(s@), white_alias()));
            assert(!matches_alias(strip(s@), lightblue_alias()));
        }

        if chars.len() != 7 {
            return Err(ColorError::InvalidColor);
        }
        if chars[0] != '#' {
            return Err(ColorError::InvalidColor);
        }
        let d1 = hex_digit(chars[1]);
        let d2 = hex_digit(chars[2]);
        let d3 = hex_digit(chars[3]);
        let d4 = hex_digit(chars[4]);
        let d5 = hex_digit(chars[5]);
        let d6 = hex_digit(chars[6]);
        match (d1, d2, d3, d4, d5, d6) {
            (Some(a), Some(b), Some(c), Some(d), Some(e), Some(f)) => Ok(
                ColorRGB { r: a * 16 + b, g: c * 16 + d, b: e * 16 + f },
            ),
            _ => Err(ColorError::InvalidColor),
        }
    }

    /// The canonical hex text of this color: `#` and six uppercase digits.
    pub fn to_hex(&self) -> (s: String)
        ensures
            s@ == to_hex_spec(*self),
    {
        proof {
            reveal_strlit("#");
        }
        let mut out = String::from_str("#");
        let s1 = hex_digit_str(self.r / 16);
        let s2 = hex_digit_str(self.r % 16);
        let s3 = hex_digit_str(self.g / 16);
        let s4 = hex_digit_str(self.g % 16);
        let s5 = hex_digit_str(self.b / 16);
        let s6 = hex_digit_str(self.b % 16);
        out.append(s1);
        out.append(s2);
        out.append(s3);
        out.append(s4);
        out.append(s5);
        out.append(s6);
        proof {
            assert("#"@ =~= seq!['#']);
            assert(out@ =~= to_hex_spec(*self));
        }
        out
    }
}

} // verus!
