//! The monochromatic harmony: five evenly spaced value levels at the seed's
//! hue and saturation.

use vstd::prelude::*;

use crate::colors::{ColorRGB, Colors};
use crate::hsv::{
    from_hsv_spec, hsv_hue_spec, hsv_sat_spec, hsv_value_spec, lemma_div_le, rhu, round_half_up,
};

verus! {

/// The lower end of the value ramp: the seed's value when it is dark,
/// otherwise one tenth.
pub open spec fn mono_low(v: int) -> int {
    if v < 500 {
        v
    } else {
        100
    }
}

/// The upper end of the value ramp: the seed's value when it is bright,
/// otherwise nine tenths.
pub open spec fn mono_high(v: int) -> int {
    if v > 500 {
        v
    } else {
        900
    }
}

/// The `i`-th of the five value levels, evenly spaced from `low` to `high`
/// and rounded half-up to thousandths.
pub open spec fn mono_level(low: int, high: int, i: int) -> int {
    rhu(4 * low + i * (high - low), 4)
}

/// The whole of `generate_monochromatic`: hue and saturation stay the
/// seed's, the five roles take the five value levels in ascending order,
/// background the lowest and highlight the highest.
pub open spec fn monochromatic_spec(seed: ColorRGB) -> Colors {
    let h = hsv_hue_spec(seed);
    let s = hsv_sat_spec(seed);
    let v = hsv_value_spec(seed);
    let low = mono_low(v);
    let high = mono_high(v);
    Colors {
        background: from_hsv_spec(h, s, mono_level(low, high, 0)),
        color_a: from_hsv_spec(h, s, mono_level(low, high, 1)),
        color_b: from_hsv_spec(h, s, mono_level(low, high, 2)),
        color_c: from_hsv_spec(h, s, mono_level(low, high, 3)),
        highlight: from_hsv_spec(h, s, mono_level(low, high, 4)),
    }
}

/// One executable value level of the ramp.
fn mono_level_exec(low: u16, high: u16, i: u16) -> (lvl: u16)
    requires
        low <= high <= 1000,
        i <= 4,
    ensures
        lvl as int == mono_level(low as int, high as int, i as int),
        lvl <= 1000,
{
    proof {
        assert((i as int) * ((high - low) as int) <= 4 * ((high - low) as int)) by (nonlinear_arith)
            requires
                0 <= i <= 4 && 0 <= (high - low) as int,
        ;
    }
    let n: u64 = 4 * (low as u64) + (i as u64) * ((high - low) as u64);
    let lvl = round_half_up(n, 4);
    proof {
        lemma_div_le(2 * (n as int) + 4, 8int, 1000);
    }
    lvl as u16
}

/// Derives the monochromatic palette of a seed color: five shades of the
/// seed's hue and saturation whose values climb evenly from the ramp's low
/// end to its high end, background darkest, highlight brightest.
pub fn generate_monochromatic(color: ColorRGB) -> (palette: Colors)
    ensures
        palette == monochromatic_spec(color),
{
    let (h, s, v) = color.rgb_to_hsv();
    let low: u16 = if v < 500 {
        v
    } else {
        100
    };
    let high: u16 = if v > 500 {
        v
    } else {
        900
    };
    Colors {
        background: ColorRGB::from_hsv((h, s, mono_level_exec(low, high, 0))),
        color_a: ColorRGB::from_hsv((h, s, mono_level_exec(low, high, 1))),
        color_b: ColorRGB::from_hsv((h, s, mono_level_exec(low, high, 2))),
        color_c: ColorRGB::from_hsv((h, s, mono_level_exec(low, high, 3))),
        highlight: ColorRGB::from_hsv((h, s, mono_level_exec(low, high, 4))),
    }
}

} // verus!
