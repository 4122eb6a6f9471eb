//! Free-form text input: the `r,g,b` decimal form and the hex form with an
//! optional missing `#`.
//!
//! RGB text is scanned for runs of decimal digits, greedily cut into groups
//! of at most three digits, exactly as a `\d{1,3}` matcher would find them.
//! A comma must appear somewhere in the input as a format guard, the scan
//! must find exactly three groups, and every group must fit a byte;
//! otherwise the input is rejected as `InvalidRgbFormat`.

use vstd::prelude::*;

use crate::colors::{ColorError, ColorRGB};
use crate::hex::from_hex_spec;

verus! {

/// A decimal digit.
pub open spec fn is_digit(c: char) -> bool {
    48 <= c as int && c as int <= 57
}

/// The numeric value of a decimal digit.
pub open spec fn digit_val(c: char) -> int {
    c as int - 48
}

/// The digit-group scan, one character at a time from position `i`:
/// `cur_len` and `cur_val` describe the group being collected (at most two
/// digits so far), `acc` the group values already emitted. A third digit
/// closes a group; a non-digit closes whatever group is open.
pub open spec fn rgb_scan(s: Seq<char>, i: int, cur_len: int, cur_val: int, acc: Seq<int>) -> Seq<
    int,
>
    decreases s.len() - i,
{
    if i < 0 || i >= s.len() {
        if cur_len > 0 {
            acc.push(cur_val)
        } else {
            acc
        }
    } else if is_digit(s[i]) {
        let v2 = cur_val * 10 + digit_val(s[i]);
        if cur_len == 2 {
            rgb_scan(s, i + 1, 0, 0, acc.push(v2))
        } else {
            rgb_scan(s, i + 1, cur_len + 1, v2, acc)
        }
    } else {
        if cur_len > 0 {
            rgb_scan(s, i + 1, 0, 0, acc.push(cur_val))
        } else {
            rgb_scan(s, i + 1, 0, 0, acc)
        }
    }
}

/// All digit groups of the input, in order.
pub open spec fn rgb_groups(s: Seq<char>) -> Seq<int> {
    rgb_scan(s, 0, 0, 0, Seq::empty())
}

/// Whether the input holds the given character anywhere.
pub open spec fn contains_char(s: Seq<char>, c: char) -> bool {
    exists|i: int| 0 <= i < s.len() && s[i] == c
}

/// The whole of `parse_rgb`: a comma somewhere, exactly three digit groups,
/// each group at most 255 — then the three groups are the channels.
pub open spec fn parse_rgb_spec(s: Seq<char>) -> Result<ColorRGB, ColorError> {
    let groups = rgb_groups(s);
    if !contains_char(s, ',') {
        Err(ColorError::InvalidRgbFormat)
    } else if groups.len() != 3 {
        Err(ColorError::InvalidRgbFormat)
    } else if groups[0] > 255 || groups[1] > 255 || groups[2] > 255 {
        Err(ColorError::InvalidRgbFormat)
    } else {
        Ok(ColorRGB { r: groups[0] as u8, g: groups[1] as u8, b: groups[2] as u8 })
    }
}

/// The whole of `parse_hex`: input that already holds a `#` anywhere is
/// parsed as it stands, otherwise a `#` is put in front first.
pub open spec fn parse_hex_spec(s: Seq<char>) -> Result<ColorRGB, ColorError> {
    if contains_char(s, '#') {
        from_hex_spec(s)
    } else {
        from_hex_spec(seq!['#'] + s)
    }
}

/// Parses free-form `r,g,b` text into a color. Digits are scanned into
/// groups of at most three wherever they stand; the numbers need not be
/// comma-adjacent, but a comma must appear somewhere, the scan must find
/// exactly three groups, and each must be `0..=255`.
pub fn parse_rgb(s: &str) -> (r: Result<ColorRGB, ColorError>)
    ensures
        r == parse_rgb_spec(s@),
{
    let n = s.unicode_len();
    let mut has_comma = false;
    let mut vals: Vec<u16> = Vec::new();
    let mut cur_len: usize = 0;
    let mut cur_val: u16 = 0;
    let mut i: usize = 0;
    proof {
        assert(vals@.map_values(|v: u16| v as int) =~= Seq::<int>::empty());
    }
    while i < n
        invariant
            i <= n,
            n == s@.len(),
            0 <= cur_len <= 2,
            cur_len == 0 ==> cur_val == 0,
            cur_len == 1 ==> cur_val <= 9,
            cur_len == 2 ==> cur_val <= 99,
            has_comma <==> exists|k: int| 0 <= k < i as int && s@[k] == ',',
            rgb_groups(s@) == rgb_scan(
                s@,
                i as int,
                cur_len as int,
                cur_val as int,
                vals@.map_values(|v: u16| v as int),
            ),
        decreases n - i,
    {
        let c = s.get_char(i);
        let u = c as u32;
        if c == ',' {
            has_comma = true;
        }
        if 48 <= u && u <= 57 {
            let v2: u16 = cur_val * 10 + (u - 48) as u16;
            if cur_len == 2 {
                proof {
                    assert(vals@.push(v2).map_values(|v: u16| v as int) =~= vals@.map_values(
                        |v: u16| v as int,
                    ).push(v2 as int));
                }
                vals.push(v2);
                cur_len = 0;
                cur_val = 0;
            } else {
                cur_len = cur_len + 1;
                cur_val = v2;
            }
        } else {
            if cur_len > 0 {
                proof {
                    assert(vals@.push(cur_val).map_values(|v: u16| v as int) =~= vals@.map_values(
                        |v: u16| v as int,
                    ).push(cur_val as int));
                }
                vals.push(cur_val);
                cur_len = 0;
                cur_val = 0;
            }
        }
        i = i + 1;
    }
    if cur_len > 0 {
        proof {
            assert(vals@.push(cur_val).map_values(|v: u16| v as int) =~= vals@.map_values(
                |v: u16| v as int,
            ).push(cur_val as int));
        }
        vals.push(cur_val);
    }

    if !has_comma {
        return Err(ColorError::InvalidRgbFormat);
    }
    if vals.len() != 3 {
        return Err(ColorError::InvalidRgbFormat);
    }
    let a = vals[0];
    let b = vals[1];
    let c = vals[2];
    if a > 255 || b > 255 || c > 255 {
        return Err(ColorError::InvalidRgbFormat);
    }
    Ok(ColorRGB { r: a as u8, g: b as u8, b: c as u8 })
}

/// Parses hex text that may lack its leading `#`: input without a `#`
/// anywhere gets one put in front, then the ordinary hex rules apply.
pub fn parse_hex(s: &str) -> (r: Result<ColorRGB, ColorError>)
    ensures
        r == parse_hex_spec(s@),
{
    let n = s.unicode_len();
    let mut has_hash = false;
    let mut i: usize = 0;
    while i < n
        invariant
            i <= n,
            n == s@.len(),
            has_hash <==> exists|k: int| 0 <= k < i as int && s@[k] == '#',
        decreases n - i,
    {
        if s.get_char(i) == '#' {
            has_hash = true;
        }
        i = i + 1;
    }
    if has_hash {
        ColorRGB::from_hex(s)
    } else {
        proof {
            reveal_strlit("#");
        }
        let mut prefixed = String::from_str("#");
        prefixed.append(s);
        proof {
            assert("#"@ =~= seq!['#']);
            assert(prefixed@ =~= seq!['#'] + s@);
        }
        ColorRGB::from_hex(prefixed.as_str())
    }
}

} // verus!
