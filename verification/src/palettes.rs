//! The closed set of harmony kinds, the dispatcher that runs one of them,
//! and the hue-spacing facts of the generated palettes.

use vstd::arithmetic::div_mod::{lemma_add_mod_noop, lemma_small_mod};
use vstd::prelude::*;

use crate::colors::{ColorRGB, Colors};
use crate::generators::analogous::{analogous_spec, generate_analogous};
use crate::generators::complementary::{complementary_spec, generate_complementary};
use crate::generators::monochromatic::{generate_monochromatic, monochromatic_spec};
use crate::generators::split_complementary::{
    generate_split_complementary, split_complementary_spec,
};
use crate::generators::tetradic::{generate_tetradic, tetradic_spec};
use crate::generators::triadic::{generate_triadic, triadic_spec};
use crate::hsv::{from_hsv_spec, hsv_hue_spec, hsv_sat_spec, hsv_value_spec};

verus! {

/// The six harmony rules a palette can be generated with.
#[derive(Clone, Copy, Debug, PartialEq, Eq, Structural)]
pub enum Harmony {
    Monochromatic,
    Complementary,
    SplitComplementary,
    Triadic,
    Tetradic,
    Analogous,
}

impl Default for Harmony {
    /// Browsing starts at the monochromatic rule.
    fn default() -> (h: Harmony)
        ensures
            h == Harmony::Monochromatic,
    {
        Harmony::Monochromatic
    }
}

/// The order in which harmony browsing cycles forward.
pub open spec fn harmony_next_spec(h: Harmony) -> Harmony {
    match h {
        Harmony::Monochromatic => Harmony::Analogous,
        Harmony::Analogous => Harmony::Complementary,
        Harmony::Complementary => Harmony::SplitComplementary,
        Harmony::SplitComplementary => Harmony::Triadic,
        Harmony::Triadic => Harmony::Tetradic,
        Harmony::Tetradic => Harmony::Monochromatic,
    }
}

/// The order in which harmony browsing cycles backward.
pub open spec fn harmony_previous_spec(h: Harmony) -> Harmony {
    match h {
        Harmony::Monochromatic => Harmony::Tetradic,
        Harmony::Analogous => Harmony::Monochromatic,
        Harmony::Complementary => Harmony::Analogous,
        Harmony::SplitComplementary => Harmony::Complementary,
        Harmony::Triadic => Harmony::SplitComplementary,
        Harmony::Tetradic => Harmony::Triadic,
    }
}

impl Harmony {
    /// The harmony after this one in browsing order.
    pub fn next(&self) -> (h: Harmony)
        ensures
            h == harmony_next_spec(*self),
    {
        match self {
            Harmony::Monochromatic => Harmony::Analogous,
            Harmony::Analogous => Harmony::Complementary,
            Harmony::Complementary => Harmony::SplitComplementary,
            Harmony::SplitComplementary => Harmony::Triadic,
            Harmony::Triadic => Harmony::Tetradic,
            Harmony::Tetradic => Harmony::Monochromatic,
        }
    }

    /// The harmony before this one in browsing order.
    pub fn previous(&self) -> (h: Harmony)
        ensures
            h == harmony_previous_spec(*self),
    {
        match self {
            Harmony::Monochromatic => Harmony::Tetradic,
            Harmony::Analogous => Harmony::Monochromatic,
            Harmony::Complementary => Harmony::Analogous,
            Harmony::SplitComplementary => Harmony::Complementary,
            Harmony::Triadic => Harmony::SplitComplementary,
            Harmony::Tetradic => Harmony::Triadic,
        }
    }
}

/// Stepping forward through every harmony and back again returns to the
/// start: the two browsing orders are inverse.
pub proof fn lemma_harmony_cycle(h: Harmony)
    ensures
        harmony_previous_spec(harmony_next_spec(h)) == h,
        harmony_next_spec(harmony_previous_spec(h)) == h,
{
}

/// The palette each harmony derives from a seed color.
pub open spec fn palette_with_harmony_spec(seed: ColorRGB, harmony: Harmony) -> Colors {
    match harmony {
        Harmony::Monochromatic => monochromatic_spec(seed),
        Harmony::Complementary => complementary_spec(seed),
        Harmony::SplitComplementary => split_complementary_spec(seed),
        Harmony::Triadic => triadic_spec(seed),
        Harmony::Tetradic => tetradic_spec(seed),
        Harmony::Analogous => analogous_spec(seed),
    }
}

/// Derives a full five-role palette from one seed color with the chosen
/// harmony rule.
pub fn generate_palette_with_harmony(color: ColorRGB, harmony: Harmony) -> (palette: Colors)
    ensures
        palette == palette_with_harmony_spec(color, harmony),
{
    match harmony {
        Harmony::Monochromatic => generate_monochromatic(color),
        Harmony::Complementary => generate_complementary(color, 5),
        Harmony::SplitComplementary => generate_split_complementary(color),
        Harmony::Triadic => generate_triadic(color),
        Harmony::Tetradic => generate_tetradic(color),
        Harmony::Analogous => generate_analogous(color),
    }
}

/// The complementary palette's role at index 1 (accent A) is built at the
/// hue exactly half a turn from the seed's: `(seed hue + 180) mod 360`, at
/// the seed's saturation and value.
pub proof fn lemma_complementary_hue(seed: ColorRGB)
    ensures
        complementary_spec(seed).color_a == from_hsv_spec(
            (hsv_hue_spec(seed) + 180) % 360,
            hsv_sat_spec(seed),
            hsv_value_spec(seed),
        ),
{
}

/// The tetradic hues are a quarter turn apart, pairwise: each constructed
/// hue is 90 degrees onward from the one before it, modulo the wheel.
pub proof fn lemma_tetradic_hue_spacing(h: int, k: int)
    requires
        0 <= h,
        1 <= k <= 2,
    ensures
        ((h + 90 * k) % 360 + 90) % 360 == (h + 90 * (k + 1)) % 360,
{
    lemma_small_mod(90nat, 360nat);
    lemma_add_mod_noop(h + 90 * k, 90, 360);
}

} // verus!
