//! The session engine: undo/redo history, role selection, text input, and
//! the cyclic list selections.

use palette_engine::colors::{ColorError, ColorRGB, Colors};
use palette_engine::history::PaletteState;
use palette_engine::palettes::Harmony;
use palette_engine::parse::{parse_hex, parse_rgb};
use palette_engine::selector::{
    Animation, DisplayMode, HSVMode, InputMode, InputSelector, StatefulList,
};

fn sample_palette() -> Colors {
    Colors {
        background: ColorRGB::new(32, 32, 32),
        color_a: ColorRGB::new(255, 255, 255),
        color_b: ColorRGB::new(144, 72, 93),
        color_c: ColorRGB::new(26, 97, 127),
        highlight: ColorRGB::new(72, 220, 3),
    }
}

fn palette_of(n: u8) -> Colors {
    let c = ColorRGB::new(n, n, n);
    Colors { background: c, color_a: c, color_b: c, color_c: c, highlight: c }
}

#[test]
fn undo_returns_the_palette_before_the_last_change() {
    let mut state = PaletteState::new(sample_palette());
    state.change_color(palette_of(1));
    state.change_color(palette_of(2));
    state.change_color(palette_of(3));
    assert_eq!(state.colors, palette_of(3));

    state.undo_change();
    assert_eq!(state.colors, palette_of(2));

    state.redo_change();
    assert_eq!(state.colors, palette_of(3));
}

#[test]
fn undo_and_redo_walk_the_whole_history() {
    let mut state = PaletteState::new(sample_palette());
    state.change_color(palette_of(1));
    state.change_color(palette_of(2));
    state.undo_change();
    state.undo_change();
    assert_eq!(state.colors, sample_palette());
    state.redo_change();
    state.redo_change();
    assert_eq!(state.colors, palette_of(2));
}

#[test]
fn undo_and_redo_on_empty_stacks_do_nothing() {
    let mut state = PaletteState::new(sample_palette());
    state.undo_change();
    assert_eq!(state.colors, sample_palette());
    state.redo_change();
    assert_eq!(state.colors, sample_palette());
}

#[test]
fn fresh_change_leaves_stale_redo_entries() {
    // a change after an undo does not clear the redo stack: the stale entry
    // is still redone afterwards
    let mut state = PaletteState::new(sample_palette());
    state.change_color(palette_of(1));
    state.undo_change();
    state.change_color(palette_of(2));
    state.redo_change();
    assert_eq!(state.colors, palette_of(1));
}

#[test]
fn role_mutation_goes_through_history() {
    let mut state = PaletteState::new(sample_palette());
    let new_color = ColorRGB::new(10, 20, 30);
    state.set_color_by_mode(InputSelector::B, new_color);
    assert_eq!(state.colors.color_b, new_color);
    assert_eq!(state.colors.color_a, sample_palette().color_a);
    state.undo_change();
    assert_eq!(state.colors, sample_palette());
}

#[test]
fn get_color_by_mode_reads_each_role() {
    let state = PaletteState::new(sample_palette());
    assert_eq!(state.get_color_by_mode(InputSelector::Background), ColorRGB::new(32, 32, 32));
    assert_eq!(state.get_color_by_mode(InputSelector::A), ColorRGB::new(255, 255, 255));
    assert_eq!(state.get_color_by_mode(InputSelector::B), ColorRGB::new(144, 72, 93));
    assert_eq!(state.get_color_by_mode(InputSelector::C), ColorRGB::new(26, 97, 127));
    assert_eq!(state.get_color_by_mode(InputSelector::Highlight), ColorRGB::new(72, 220, 3));
}

#[test]
fn invert_color_flips_one_role() {
    let mut state = PaletteState::new(sample_palette());
    state.invert_color(InputSelector::Background);
    assert_eq!(state.colors.background, ColorRGB::new(223, 223, 223));
    assert_eq!(state.colors.color_a, sample_palette().color_a);
    state.undo_change();
    assert_eq!(state.colors, sample_palette());
}

#[test]
fn invert_all_flips_every_role() {
    let mut state = PaletteState::new(sample_palette());
    state.invert_all();
    assert_eq!(state.colors.background, ColorRGB::new(223, 223, 223));
    assert_eq!(state.colors.color_a, ColorRGB::new(0, 0, 0));
    assert_eq!(state.colors.highlight, ColorRGB::new(183, 35, 252));
    state.invert_all();
    assert_eq!(state.colors, sample_palette());
}

#[test]
fn submit_palette_applies_a_generated_palette() {
    let mut state = PaletteState::new(sample_palette());
    state.set_color_by_mode(InputSelector::A, ColorRGB::from_hex("#00EEEC").unwrap());
    state.submit_palette(InputSelector::A, Harmony::Tetradic);
    assert_eq!(state.colors.background.to_hex(), "#00BEBB");
    assert_eq!(state.colors.color_a.to_hex(), "#00EEEC");
    state.undo_change();
    assert_eq!(state.colors.color_a.to_hex(), "#00EEEC");
    state.undo_change();
    assert_eq!(state.colors, sample_palette());
}

#[test]
fn color_up_swaps_with_the_previous_role() {
    let mut state = PaletteState::new(sample_palette());
    let moved = state.color_up_by_selection(InputSelector::A);
    assert_eq!(moved, InputSelector::Background);
    assert_eq!(state.colors.background, ColorRGB::new(255, 255, 255));
    assert_eq!(state.colors.color_a, ColorRGB::new(32, 32, 32));
    state.undo_change();
    assert_eq!(state.colors, sample_palette());
}

#[test]
fn color_down_swaps_with_the_next_role_and_wraps() {
    let mut state = PaletteState::new(sample_palette());
    let moved = state.color_down_by_selection(InputSelector::Highlight);
    assert_eq!(moved, InputSelector::Background);
    assert_eq!(state.colors.background, ColorRGB::new(72, 220, 3));
    assert_eq!(state.colors.highlight, ColorRGB::new(32, 32, 32));
}

#[test]
fn test_rgb_text_parses_plain_triple() {
    let color = parse_rgb("10,20,30").unwrap();
    assert_eq!((color.r, color.g, color.b), (10, 20, 30));
}

#[test]
fn rgb_text_rejects_out_of_range_component() {
    assert_eq!(parse_rgb("999,1,1"), Err(ColorError::InvalidRgbFormat));
}

#[test]
fn rgb_text_requires_a_comma() {
    assert_eq!(parse_rgb("1 2 3"), Err(ColorError::InvalidRgbFormat));
}

#[test]
fn rgb_text_scans_digits_loosely() {
    // the numbers need not be comma-adjacent; decoration is ignored
    let color = parse_rgb("(10, 20, 30)").unwrap();
    assert_eq!((color.r, color.g, color.b), (10, 20, 30));
    let sparse = parse_rgb("r10 g20,b30").unwrap();
    assert_eq!((sparse.r, sparse.g, sparse.b), (10, 20, 30));
}

#[test]
fn rgb_text_rejects_wrong_arity() {
    assert_eq!(parse_rgb("1,2"), Err(ColorError::InvalidRgbFormat));
    assert_eq!(parse_rgb("1,2,3,4"), Err(ColorError::InvalidRgbFormat));
    // a four-digit run splits into two groups, making four in all
    assert_eq!(parse_rgb("1234,5,6"), Err(ColorError::InvalidRgbFormat));
    assert_eq!(parse_rgb(","), Err(ColorError::InvalidRgbFormat));
}

#[test]
fn hex_text_accepts_missing_hash() {
    let color = parse_hex("00EEEC").unwrap();
    assert_eq!(color.to_hex(), "#00EEEC");
    let with_hash = parse_hex("#00EEEC").unwrap();
    assert_eq!(with_hash.to_hex(), "#00EEEC");
    assert_eq!(parse_hex("not a color"), Err(ColorError::InvalidColor));
    // the prepended '#' keeps alias names out of this path: '#white' is no
    // hex literal, so aliases are only reached through from_hex itself
    assert_eq!(parse_hex("white"), Err(ColorError::InvalidColor));
}

#[test]
fn cyclic_selector_wraps_forward() {
    let mut list = StatefulList::with_items(vec![10, 20, 30, 40, 50]);
    assert_eq!(list.selected(), None);
    // from unset the first step selects index 0, so the wrap back to 0
    // completes on the sixth step
    let expected = [0, 1, 2, 3, 4, 0];
    for want in expected {
        list.next();
        assert_eq!(list.selected(), Some(want));
    }
}

#[test]
fn cyclic_selector_previous_from_unset_selects_first() {
    let mut list = StatefulList::with_items(vec![10, 20, 30, 40, 50]);
    list.previous();
    // the unset -> select 0 rule wins over wrapping to the last index
    assert_eq!(list.selected(), Some(0));
    list.previous();
    assert_eq!(list.selected(), Some(4));
}

#[test]
fn cyclic_selector_ignores_empty_lists() {
    let mut list: StatefulList<u8> = StatefulList::with_items(vec![]);
    list.next();
    assert_eq!(list.selected(), None);
    list.previous();
    assert_eq!(list.selected(), None);
}

#[test]
fn cyclic_selector_unselect_clears() {
    let mut list = StatefulList::with_items(vec![1, 2, 3]);
    list.next();
    assert_eq!(list.selected(), Some(0));
    list.unselect();
    assert_eq!(list.selected(), None);
}

#[test]
fn trim_to_length_drops_oldest_entries() {
    let mut list = StatefulList::with_items(vec![1, 2, 3, 4, 5]);
    list.trim_to_length(3);
    assert_eq!(list.items, vec![3, 4, 5]);
    list.trim_to_length(10);
    assert_eq!(list.items, vec![3, 4, 5]);
}

#[test]
fn animation_cycles_keyframes() {
    let mut anim = Animation::with_items(vec!["".to_string(), " ".to_string()]);
    assert_eq!(anim.selected(), None);
    anim.next();
    assert_eq!(anim.selected(), Some(0));
    anim.next();
    assert_eq!(anim.selected(), Some(1));
    anim.next();
    assert_eq!(anim.selected(), Some(0));
    anim.previous();
    assert_eq!(anim.selected(), Some(1));
}

#[test]
fn role_selector_cycles_both_ways() {
    let order = [
        InputSelector::Background,
        InputSelector::A,
        InputSelector::B,
        InputSelector::C,
        InputSelector::Highlight,
    ];
    let mut current = InputSelector::Background;
    for expected in order.iter().skip(1) {
        current = current.next();
        assert_eq!(current, *expected);
    }
    current = current.next();
    assert_eq!(current, InputSelector::Background);
    assert_eq!(current.previous(), InputSelector::Highlight);
    assert_eq!(InputSelector::default(), InputSelector::Background);
}

#[test]
fn hsv_mode_cycles_and_edits() {
    assert_eq!(HSVMode::default(), HSVMode::S);
    assert_eq!(HSVMode::H.next(), HSVMode::S);
    assert_eq!(HSVMode::V.next(), HSVMode::H);
    assert_eq!(HSVMode::H.previous(), HSVMode::V);

    let color = ColorRGB::new(0, 238, 236);
    let up = HSVMode::H.increase_by_mode(&color);
    assert_eq!(up, color.shift_hue(1));
    let down = HSVMode::V.decrease_by_mode(&color);
    assert_eq!(down, color.shift_value(-10));
    let sat = HSVMode::S.increase_by_mode(&color);
    assert_eq!(sat, color.shift_saturation(10));
}

#[test]
fn mode_defaults_match_session_start() {
    assert_eq!(InputMode::default(), InputMode::HEX);
    assert_eq!(DisplayMode::default(), DisplayMode::Normal);
    assert_eq!(ColorRGB::default(), ColorRGB::new(0, 0, 0));
}

