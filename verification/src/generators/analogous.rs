//! The analogous harmony: five neighbouring hues, thirty degrees apart.

use vstd::prelude::*;

use crate::colors::{ColorRGB, Colors};
use crate::hsv::{from_hsv_spec, hsv_hue_spec, hsv_sat_spec, hsv_value_spec};

verus! {

/// The whole of `generate_analogous`: the five roles take the hues
/// `seed + 30 * i` for `i` from 0 to 4, wrapped into the wheel, at the
/// seed's saturation and value; background is `i = 0`, highlight `i = 4`.
/// Every role, the first included, goes through the HSV conversion.
pub open spec fn analogous_spec(seed: ColorRGB) -> Colors {
    let h = hsv_hue_spec(seed);
    let s = hsv_sat_spec(seed);
    let v = hsv_value_spec(seed);
    Colors {
        background: from_hsv_spec(h % 360, s, v),
        color_a: from_hsv_spec((h + 30) % 360, s, v),
        color_b: from_hsv_spec((h + 60) % 360, s, v),
        color_c: from_hsv_spec((h + 90) % 360, s, v),
        highlight: from_hsv_spec((h + 120) % 360, s, v),
    }
}

/// Derives the analogous palette of a seed color: five hues climbing in
/// thirty-degree steps from the seed's hue, all at the seed's saturation and
/// value.
pub fn generate_analogous(color: ColorRGB) -> (palette: Colors)
    ensures
        palette == analogous_spec(color),
{
    let (h, s, v) = color.rgb_to_hsv();
    Colors {
        background: ColorRGB::from_hsv((h % 360, s, v)),
        color_a: ColorRGB::from_hsv(((h + 30) % 360, s, v)),
        color_b: ColorRGB::from_hsv(((h + 60) % 360, s, v)),
        color_c: ColorRGB::from_hsv(((h + 90) % 360, s, v)),
        highlight: ColorRGB::from_hsv(((h + 120) % 360, s, v)),
    }
}

} // verus!
