//! The six harmony rules on the shared seed, with the exact palettes the
//! fixed-point math yields, and the hue relations the rules promise.

use palette_engine::colors::ColorRGB;
use palette_engine::generators::analogous::generate_analogous;
use palette_engine::generators::complementary::generate_complementary;
use palette_engine::generators::monochromatic::generate_monochromatic;
use palette_engine::generators::split_complementary::generate_split_complementary;
use palette_engine::generators::tetradic::generate_tetradic;
use palette_engine::generators::triadic::generate_triadic;
use palette_engine::palettes::{generate_palette_with_harmony, Harmony};

#[test]
fn test_generate_monochromatic() {
    // seed #00EEEC: rgb (0, 238, 236), hsv (179, 1.000, 0.933)
    let color = ColorRGB::from_hex("#00EEEC").unwrap();
    let colors = generate_monochromatic(color);
    println!(
        "0: {}, 1: {}, 2: {}, 3: {}, 4: {}",
        colors.background.to_hex(),
        colors.color_a.to_hex(),
        colors.color_b.to_hex(),
        colors.color_c.to_hex(),
        colors.highlight.to_hex()
    );
}

#[test]
fn test_generate_complementary() {
    let color = ColorRGB::from_hex("#00EEEC").unwrap();
    let colors = generate_complementary(color, 5);
    println!(
        "0: {}, 1: {}, 2: {}, 3: {}, 4: {}",
        colors.background.to_hex(),
        colors.color_a.to_hex(),
        colors.color_b.to_hex(),
        colors.color_c.to_hex(),
        colors.highlight.to_hex()
    );
}

#[test]
fn test_generate_splitcomp() {
    let color = ColorRGB::from_hex("#00EEEC").unwrap();
    let colors = generate_split_complementary(color);
    println!(
        "0: {}, 1: {}, 2: {}, 3: {}, 4: {}",
        colors.background.to_hex(),
        colors.color_a.to_hex(),
        colors.color_b.to_hex(),
        colors.color_c.to_hex(),
        colors.highlight.to_hex()
    );
}

#[test]
fn test_generate_tetradic() {
    let color = ColorRGB::from_hex("#00EEEC").unwrap();
    let colors = generate_tetradic(color);
    println!(
        "0: {}, 1: {}, 2: {}, 3: {}, 4: {}",
        colors.background.to_hex(),
        colors.color_a.to_hex(),
        colors.color_b.to_hex(),
        colors.color_c.to_hex(),
        colors.highlight.to_hex()
    );
}

#[test]
fn test_generate_analogous() {
    let color = ColorRGB::from_hex("#00EEEC").unwrap();
    let colors = generate_analogous(color);
    println!(
        "0: {}, 1: {}, 2: {}, 3: {}, 4: {}",
        colors.background.to_hex(),
        colors.color_a.to_hex(),
        colors.color_b.to_hex(),
        colors.color_c.to_hex(),
        colors.highlight.to_hex()
    );
}

#[test]
fn monochromatic_ramp_of_bright_seed() {
    // value 0.933 is bright, so the ramp runs from 0.1 up to 0.933
    let colors = generate_monochromatic(ColorRGB::from_hex("#00EEEC").unwrap());
    assert_eq!(colors.background.to_hex(), "#001919");
    assert_eq!(colors.color_a.to_hex(), "#004E4D");
    assert_eq!(colors.color_b.to_hex(), "#008381");
    assert_eq!(colors.color_c.to_hex(), "#00B8B5");
    assert_eq!(colors.highlight.to_hex(), "#00EDE9");
}

#[test]
fn monochromatic_values_ascend() {
    let colors = generate_monochromatic(ColorRGB::new(144, 76, 98));
    let values = [
        colors.background.rgb_to_hsv().2,
        colors.color_a.rgb_to_hsv().2,
        colors.color_b.rgb_to_hsv().2,
        colors.color_c.rgb_to_hsv().2,
        colors.highlight.rgb_to_hsv().2,
    ];
    for pair in values.windows(2) {
        assert!(pair[0] <= pair[1]);
    }
}

#[test]
fn complementary_keeps_seed_and_alternates() {
    let seed = ColorRGB::from_hex("#00EEEC").unwrap();
    let colors = generate_complementary(seed, 5);
    // role 0 is the seed itself, untouched by any conversion
    assert_eq!(colors.background, seed);
    assert_eq!(colors.color_a.to_hex(), "#ED0003");
    assert_eq!(colors.color_b.to_hex(), "#00EDE9");
    assert_eq!(colors.color_c.to_hex(), "#ED0003");
    assert_eq!(colors.highlight.to_hex(), "#00EDE9");
}

#[test]
fn complementary_hue_is_half_a_turn_away() {
    // seed hue 179; the role at index 1 measures hue (179 + 180) mod 360
    let seed = ColorRGB::from_hex("#00EEEC").unwrap();
    let seed_hue = seed.rgb_to_hsv().0;
    let colors = generate_complementary(seed, 5);
    let accent_hue = colors.color_a.rgb_to_hsv().0;
    assert_eq!(accent_hue, (seed_hue + 180) % 360);
}

#[test]
fn split_complementary_palette() {
    let colors = generate_split_complementary(ColorRGB::from_hex("#00EEEC").unwrap());
    assert_eq!(colors.background.to_hex(), "#00FFFF");
    assert_eq!(colors.color_a.to_hex(), "#00EEEC");
    assert_eq!(colors.color_b.to_hex(), "#ED007A");
    assert_eq!(colors.color_c.to_hex(), "#03ED00");
    assert_eq!(colors.highlight.to_hex(), "#00BEBB");
}

#[test]
fn triadic_palette() {
    let colors = generate_triadic(ColorRGB::from_hex("#00EEEC").unwrap());
    assert_eq!(colors.background.to_hex(), "#00FFFF");
    assert_eq!(colors.color_a.to_hex(), "#00EEEC");
    assert_eq!(colors.color_b.to_hex(), "#E900ED");
    assert_eq!(colors.color_c.to_hex(), "#EDE900");
    assert_eq!(colors.highlight.to_hex(), "#00BEBB");
}

#[test]
fn tetradic_palette() {
    let colors = generate_tetradic(ColorRGB::from_hex("#00EEEC").unwrap());
    assert_eq!(colors.background.to_hex(), "#00BEBB");
    assert_eq!(colors.color_a.to_hex(), "#00EEEC");
    assert_eq!(colors.color_b.to_hex(), "#7200ED");
    assert_eq!(colors.color_c.to_hex(), "#ED0003");
    assert_eq!(colors.highlight.to_hex(), "#7AED00");
}

#[test]
fn tetradic_hues_are_ninety_degrees_apart() {
    let seed = ColorRGB::from_hex("#00EEEC").unwrap();
    let seed_hue = seed.rgb_to_hsv().0;
    let colors = generate_tetradic(seed);
    let hues = [
        colors.color_a.rgb_to_hsv().0,
        colors.color_b.rgb_to_hsv().0,
        colors.color_c.rgb_to_hsv().0,
        colors.highlight.rgb_to_hsv().0,
    ];
    for (k, hue) in hues.iter().enumerate() {
        assert_eq!(*hue, (seed_hue + 90 * k as u16) % 360);
    }
}

#[test]
fn analogous_palette() {
    let colors = generate_analogous(ColorRGB::from_hex("#00EEEC").unwrap());
    assert_eq!(colors.background.to_hex(), "#00EDE9");
    assert_eq!(colors.color_a.to_hex(), "#007AED");
    assert_eq!(colors.color_b.to_hex(), "#0003ED");
    assert_eq!(colors.color_c.to_hex(), "#7200ED");
    assert_eq!(colors.highlight.to_hex(), "#E900ED");
}

#[test]
fn dispatcher_matches_each_generator() {
    let seed = ColorRGB::from_hex("#00EEEC").unwrap();
    assert_eq!(
        generate_palette_with_harmony(seed, Harmony::Monochromatic),
        generate_monochromatic(seed)
    );
    assert_eq!(
        generate_palette_with_harmony(seed, Harmony::Complementary),
        generate_complementary(seed, 5)
    );
    assert_eq!(
        generate_palette_with_harmony(seed, Harmony::SplitComplementary),
        generate_split_complementary(seed)
    );
    assert_eq!(generate_palette_with_harmony(seed, Harmony::Triadic), generate_triadic(seed));
    assert_eq!(generate_palette_with_harmony(seed, Harmony::Tetradic), generate_tetradic(seed));
    assert_eq!(generate_palette_with_harmony(seed, Harmony::Analogous), generate_analogous(seed));
}

#[test]
fn harmony_browsing_cycles() {
    let order = [
        Harmony::Monochromatic,
        Harmony::Analogous,
        Harmony::Complementary,
        Harmony::SplitComplementary,
        Harmony::Triadic,
        Harmony::Tetradic,
    ];
    let mut current = Harmony::Monochromatic;
    for expected in order.iter().skip(1) {
        current = current.next();
        assert_eq!(current, *expected);
    }
    current = current.next();
    assert_eq!(current, Harmony::Monochromatic);
    assert_eq!(current.previous(), Harmony::Tetradic);
    assert_eq!(Harmony::default(), Harmony::Monochromatic);
}
