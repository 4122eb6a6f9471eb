//! The complementary harmony: the seed itself, and four roles whose hues are
//! shifted by whole half-turns around the wheel.

use vstd::prelude::*;

use crate::colors::{ColorRGB, Colors};
use crate::hsv::{from_hsv_spec, hsv_hue_spec, hsv_sat_spec, hsv_value_spec};

verus! {

/// The hue of role `k` of the complementary palette: the seed hue shifted by
/// `180 * k`, wrapped into the wheel. Even `k` lands back on the seed's hue,
/// odd `k` on the one complementary hue, so the palette repeats the same
/// complementary hue rather than spreading four distinct ones.
pub open spec fn comp_hue(h: int, k: int) -> int {
    (h + 180 * k) % 360
}

/// The whole of `generate_complementary`: role 0 (background) is the seed
/// unchanged; roles 1 to 4 keep the seed's saturation and value and take the
/// hue shifted by `180 * k`.
pub open spec fn complementary_spec(seed: ColorRGB) -> Colors {
    let h = hsv_hue_spec(seed);
    let s = hsv_sat_spec(seed);
    let v = hsv_value_spec(seed);
    Colors {
        background: seed,
        color_a: from_hsv_spec(comp_hue(h, 1), s, v),
        color_b: from_hsv_spec(comp_hue(h, 2), s, v),
        color_c: from_hsv_spec(comp_hue(h, 3), s, v),
        highlight: from_hsv_spec(comp_hue(h, 4), s, v),
    }
}

/// Derives the complementary palette of a seed color for the five-role
/// palette: the seed keeps the background role, and the accent and highlight
/// roles alternate between the complementary hue and the seed's own hue at
/// the seed's saturation and value.
pub fn generate_complementary(color: ColorRGB, num_colors: usize) -> (palette: Colors)
    requires
        num_colors == 5,
    ensures
        palette == complementary_spec(color),
{
    let (h, s, v) = color.rgb_to_hsv();
    Colors {
        background: color,
        color_a: ColorRGB::from_hsv(((h + 180) % 360, s, v)),
        color_b: ColorRGB::from_hsv(((h + 360) % 360, s, v)),
        color_c: ColorRGB::from_hsv(((h + 540) % 360, s, v)),
        highlight: ColorRGB::from_hsv(((h + 720) % 360, s, v)),
    }
}

} // verus!
