//! The tetradic harmony: four hues a quarter turn apart, plus one shade of
//! the seed chosen by its brightness.

use vstd::prelude::*;

use crate::colors::{ColorRGB, Colors};
use crate::generators::split_complementary::{
    value_darker, value_darker_exec, value_lighter, value_lighter_exec,
};
use crate::hsv::{from_hsv_spec, hsv_hue_spec, hsv_sat_spec, hsv_value_spec};

verus! {

/// The fifth tetradic entry's value: a bright seed contributes a darker
/// shade of itself, a dark seed a lighter one.
pub open spec fn tetradic_shade_value(v: int) -> int {
    if v > 500 {
        value_darker(v)
    } else {
        value_lighter(v)
    }
}

/// The whole of `generate_tetradic`: background is the shade of the seed,
/// the seed keeps an accent role, and the hues 90, 180 and 270 degrees
/// onward fill the rest at the seed's saturation and value.
pub open spec fn tetradic_spec(seed: ColorRGB) -> Colors {
    let h = hsv_hue_spec(seed);
    let s = hsv_sat_spec(seed);
    let v = hsv_value_spec(seed);
    Colors {
        background: from_hsv_spec(h, s, tetradic_shade_value(v)),
        color_a: seed,
        color_b: from_hsv_spec((h + 90) % 360, s, v),
        color_c: from_hsv_spec((h + 180) % 360, s, v),
        highlight: from_hsv_spec((h + 270) % 360, s, v),
    }
}

/// Derives the tetradic palette of a seed color: the seed and the three hues
/// at 90, 180 and 270 degrees from it, at the seed's saturation and value,
/// with a darker (bright seed) or lighter (dark seed) shade of the seed as
/// background.
pub fn generate_tetradic(color: ColorRGB) -> (palette: Colors)
    ensures
        palette == tetradic_spec(color),
{
    let (h, s, v) = color.rgb_to_hsv();
    let shade_v: u16 = if v > 500 {
        value_darker_exec(v)
    } else {
        value_lighter_exec(v)
    };
    Colors {
        background: ColorRGB::from_hsv((h, s, shade_v)),
        color_a: color,
        color_b: ColorRGB::from_hsv(((h + 90) % 360, s, v)),
        color_c: ColorRGB::from_hsv(((h + 180) % 360, s, v)),
        highlight: ColorRGB::from_hsv(((h + 270) % 360, s, v)),
    }
}

} // verus!
