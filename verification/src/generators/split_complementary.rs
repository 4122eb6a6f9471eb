//! The split-complementary harmony: the seed, the two hues flanking its
//! complement, and a darker and a lighter shade of the seed.

use vstd::prelude::*;

use crate::colors::{ColorRGB, Colors};
use crate::hsv::{
    from_hsv_spec, hsv_hue_spec, hsv_sat_spec, hsv_value_spec, lemma_div_le, rhu, round_half_up,
};

verus! {

/// A value scaled to four fifths (darker) and rounded half-up to
/// thousandths.
pub open spec fn value_darker(v: int) -> int {
    rhu(4 * v, 5)
}

/// A value scaled to six fifths (lighter) and rounded half-up to
/// thousandths. It may exceed 1000; `from_hsv` saturates such channels.
pub open spec fn value_lighter(v: int) -> int {
    rhu(6 * v, 5)
}

/// The whole of `generate_split_complementary`: background is the lighter
/// shade of the seed, accents are the seed and the hues 150 and 300 degrees
/// onward, highlight is the darker shade of the seed.
pub open spec fn split_complementary_spec(seed: ColorRGB) -> Colors {
    let h = hsv_hue_spec(seed);
    let s = hsv_sat_spec(seed);
    let v = hsv_value_spec(seed);
    Colors {
        background: from_hsv_spec(h, s, value_lighter(v)),
        color_a: seed,
        color_b: from_hsv_spec((h + 150) % 360, s, v),
        color_c: from_hsv_spec((h + 300) % 360, s, v),
        highlight: from_hsv_spec(h, s, value_darker(v)),
    }
}

/// A value scaled to four fifths, as executable code.
pub(crate) fn value_darker_exec(v: u16) -> (d: u16)
    requires
        v <= 1000,
    ensures
        d as int == value_darker(v as int),
        d <= 800,
{
    let d = round_half_up(4 * (v as u64), 5);
    proof {
        lemma_div_le(2 * (4 * (v as int)) + 5, 10int, 800);
    }
    d as u16
}

/// A value scaled to six fifths, as executable code.
pub(crate) fn value_lighter_exec(v: u16) -> (l: u16)
    requires
        v <= 1000,
    ensures
        l as int == value_lighter(v as int),
        l <= 1200,
{
    let l = round_half_up(6 * (v as u64), 5);
    proof {
        lemma_div_le(2 * (6 * (v as int)) + 5, 10int, 1200);
    }
    l as u16
}

/// Derives the split-complementary palette of a seed color: the seed keeps
/// an accent role, the two hues at 150 and 300 degrees from it fill the
/// other accents at the seed's saturation and value, and a lighter and a
/// darker shade of the seed frame them as background and highlight.
pub fn generate_split_complementary(color: ColorRGB) -> (palette: Colors)
    ensures
        palette == split_complementary_spec(color),
{
    let (h, s, v) = color.rgb_to_hsv();
    Colors {
        background: ColorRGB::from_hsv((h, s, value_lighter_exec(v))),
        color_a: color,
        color_b: ColorRGB::from_hsv(((h + 150) % 360, s, v)),
        color_c: ColorRGB::from_hsv(((h + 300) % 360, s, v)),
        highlight: ColorRGB::from_hsv((h, s, value_darker_exec(v))),
    }
}

} // verus!
