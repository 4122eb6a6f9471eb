//! The triadic harmony: the seed and the two hues that complete an even
//! triangle around the wheel, framed by a darker and a lighter shade of the
//! seed, role for role as the split-complementary rule frames its hues.

use vstd::prelude::*;

use crate::colors::{ColorRGB, Colors};
use crate::generators::split_complementary::{
    value_darker, value_darker_exec, value_lighter, value_lighter_exec,
};
use crate::hsv::{from_hsv_spec, hsv_hue_spec, hsv_sat_spec, hsv_value_spec};

verus! {

/// The whole of `generate_triadic`: background is the lighter shade of the
/// seed, accents are the seed and the hues 120 and 240 degrees onward,
/// highlight is the darker shade of the seed.
pub open spec fn triadic_spec(seed: ColorRGB) -> Colors {
    let h = hsv_hue_spec(seed);
    let s = hsv_sat_spec(seed);
    let v = hsv_value_spec(seed);
    Colors {
        background: from_hsv_spec(h, s, value_lighter(v)),
        color_a: seed,
        color_b: from_hsv_spec((h + 120) % 360, s, v),
        color_c: from_hsv_spec((h + 240) % 360, s, v),
        highlight: from_hsv_spec(h, s, value_darker(v)),
    }
}

/// Derives the triadic palette of a seed color: the seed and the two hues a
/// third of the wheel apart fill the accent roles at the seed's saturation
/// and value, and a lighter and a darker shade of the seed frame them as
/// background and highlight.
pub fn generate_triadic(color: ColorRGB) -> (palette: Colors)
    ensures
        palette == triadic_spec(color),
{
    let (h, s, v) = color.rgb_to_hsv();
    Colors {
        background: ColorRGB::from_hsv((h, s, value_lighter_exec(v))),
        color_a: color,
        color_b: ColorRGB::from_hsv(((h + 120) % 360, s, v)),
        color_c: ColorRGB::from_hsv(((h + 240) % 360, s, v)),
        highlight: ColorRGB::from_hsv((h, s, value_darker_exec(v))),
    }
}

} // verus!
