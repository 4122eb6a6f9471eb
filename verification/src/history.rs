//! The palette session state: the current palette, the undo and redo stacks
//! over whole-palette snapshots, and every mutation path that goes through
//! them.
//!
//! `change_color` is the single way the current palette moves: it pushes the
//! palette being replaced onto the undo stack and leaves the redo stack
//! untouched — stale redo entries survive a fresh change until they are
//! explicitly redone past, exactly as the session behaves. `undo_change` and
//! `redo_change` pop one stack and push the current palette onto the other.

use vstd::prelude::*;

use crate::colors::{flip_spec, ColorRGB, Colors};
use crate::palettes::{palette_with_harmony_spec, Harmony};
use crate::selector::InputSelector;

verus! {

/// The color a palette assigns to one role.
pub open spec fn role_of(colors: Colors, selector: InputSelector) -> ColorRGB {
    match selector {
        InputSelector::Background => colors.background,
        InputSelector::A => colors.color_a,
        InputSelector::B => colors.color_b,
        InputSelector::C => colors.color_c,
        InputSelector::Highlight => colors.highlight,
    }
}

/// A palette equal to the given one except that one role holds the given
/// color.
pub open spec fn with_role(colors: Colors, selector: InputSelector, color: ColorRGB) -> Colors {
    match selector {
        InputSelector::Background => Colors { background: color, ..colors },
        InputSelector::A => Colors { color_a: color, ..colors },
        InputSelector::B => Colors { color_b: color, ..colors },
        InputSelector::C => Colors { color_c: color, ..colors },
        InputSelector::Highlight => Colors { highlight: color, ..colors },
    }
}

/// The palette with every role inverted.
pub open spec fn flip_all_spec(colors: Colors) -> Colors {
    Colors {
        background: flip_spec(colors.background),
        color_a: flip_spec(colors.color_a),
        color_b: flip_spec(colors.color_b),
        color_c: flip_spec(colors.color_c),
        highlight: flip_spec(colors.highlight),
    }
}

/// The mathematical view of a palette session: the current palette and the
/// two snapshot stacks, top of stack last.
#[verifier::ext_equal]
pub ghost struct PaletteModel {
    pub current: Colors,
    pub undo: Seq<Colors>,
    pub redo: Seq<Colors>,
}

/// Applying a new palette: the replaced palette goes on top of the undo
/// stack, the redo stack stays as it is.
pub open spec fn apply_model(m: PaletteModel, p: Colors) -> PaletteModel {
    PaletteModel { current: p, undo: m.undo.push(m.current), redo: m.redo }
}

/// Undoing one change: with an empty undo stack nothing happens; otherwise
/// the top snapshot becomes current and the replaced palette goes on top of
/// the redo stack.
pub open spec fn undo_model(m: PaletteModel) -> PaletteModel {
    if m.undo.len() == 0 {
        m
    } else {
        PaletteModel { current: m.undo.last(), undo: m.undo.drop_last(), redo: m.redo.push(m.current) }
    }
}

/// Redoing one undone change: the mirror image of `undo_model`.
pub open spec fn redo_model(m: PaletteModel) -> PaletteModel {
    if m.redo.len() == 0 {
        m
    } else {
        PaletteModel { current: m.redo.last(), undo: m.undo.push(m.current), redo: m.redo.drop_last() }
    }
}

/// Undo undoes and redo redoes: after any run of changes, one `undo_change`
/// brings back the palette that stood before the last change, and one
/// `redo_change` after it restores the palette that was undone. `m` is the
/// session state before the last change, so the law holds of every reachable
/// state.
pub proof fn lemma_undo_redo_inverse(m: PaletteModel, p: Colors)
    ensures
        undo_model(apply_model(m, p)).current == m.current,
        redo_model(undo_model(apply_model(m, p))).current == apply_model(m, p).current,
{
    let applied = apply_model(m, p);
    assert(applied.undo.last() == m.current);
    let undone = undo_model(applied);
    assert(undone.redo.last() == p);
}

/// A palette equal to the given one except that one role holds the given
/// color, as executable code.
pub fn replace_role(colors: &Colors, selector: InputSelector, color: ColorRGB) -> (updated: Colors)
    ensures
        updated == with_role(*colors, selector, color),
{
    let mut updated = *colors;
    match selector {
        InputSelector::Background => {
            updated.background = color;
        },
        InputSelector::A => {
            updated.color_a = color;
        },
        InputSelector::B => {
            updated.color_b = color;
        },
        InputSelector::C => {
            updated.color_c = color;
        },
        InputSelector::Highlight => {
            updated.highlight = color;
        },
    }
    updated
}

/// A palette session: the current palette and the undo and redo stacks.
#[derive(Clone)]
pub struct PaletteState {
    pub colors: Colors,
    pub color_history: Vec<Colors>,
    pub redo_history: Vec<Colors>,
}

impl PaletteState {
    /// The mathematical view of this session.
    pub open spec fn model(&self) -> PaletteModel {
        PaletteModel { current: self.colors, undo: self.color_history@, redo: self.redo_history@ }
    }

    /// A fresh session holding the given palette, with empty histories.
    pub fn new(colors: Colors) -> (state: PaletteState)
        ensures
            state.model() == (PaletteModel {
                current: colors,
                undo: Seq::<Colors>::empty(),
                redo: Seq::<Colors>::empty(),
            }),
    {
        let state = PaletteState { colors, color_history: Vec::new(), redo_history: Vec::new() };
        proof {
            assert(state.model() =~= (PaletteModel {
                current: colors,
                undo: Seq::<Colors>::empty(),
                redo: Seq::<Colors>::empty(),
            }));
        }
        state
    }

    /// The color of the addressed role of the current palette.
    pub fn get_color_by_mode(&self, selector: InputSelector) -> (c: ColorRGB)
        ensures
            c == role_of(self.colors, selector),
    {
        match selector {
            InputSelector::Background => self.colors.background,
            InputSelector::A => self.colors.color_a,
            InputSelector::B => self.colors.color_b,
            InputSelector::C => self.colors.color_c,
            InputSelector::Highlight => self.colors.highlight,
        }
    }

    /// The current palette with the addressed role replaced by the given
    /// color; the session itself is not changed.
    pub fn make_colors_by_mode(&self, selector: InputSelector, color: ColorRGB) -> (colors: Colors)
        ensures
            colors == with_role(self.colors, selector, color),
    {
        replace_role(&self.colors, selector, color)
    }

    /// Applies a new palette: the palette being replaced is pushed onto the
    /// undo stack, the redo stack is left untouched.
    pub fn change_color(&mut self, colors: Colors)
        ensures
            final(self).model() == apply_model(old(self).model(), colors),
    {
        self.color_history.push(self.colors);
        self.colors = colors;
        proof {
            assert(self.model() =~= apply_model(old(self).model(), colors));
        }
    }

    /// Undoes the last change, if there is one: the top undo snapshot
    /// becomes current and the replaced palette goes onto the redo stack.
    /// With an empty undo stack nothing happens.
    pub fn undo_change(&mut self)
        ensures
            final(self).model() == undo_model(old(self).model()),
    {
        match self.color_history.pop() {
            Some(last) => {
                self.redo_history.push(self.colors);
                self.colors = last;
                proof {
                    assert(self.model() =~= undo_model(old(self).model()));
                }
            },
            None => {
                proof {
                    assert(self.model() =~= undo_model(old(self).model()));
                }
            },
        }
    }

    /// Redoes the last undone change, if there is one: the mirror image of
    /// `undo_change`. With an empty redo stack nothing happens.
    pub fn redo_change(&mut self)
        ensures
            final(self).model() == redo_model(old(self).model()),
    {
        match self.redo_history.pop() {
            Some(next) => {
                self.color_history.push(self.colors);
                self.colors = next;
                proof {
                    assert(self.model() =~= redo_model(old(self).model()));
                }
            },
            None => {
                proof {
                    assert(self.model() =~= redo_model(old(self).model()));
                }
            },
        }
    }

    /// Replaces the addressed role with the given color, through the
    /// history: one undoable change.
    pub fn set_color_by_mode(&mut self, selector: InputSelector, color: ColorRGB)
        ensures
            final(self).model() == apply_model(
                old(self).model(),
                with_role(old(self).colors, selector, color),
            ),
    {
        let colors = self.make_colors_by_mode(selector, color);
        self.change_color(colors);
    }

    /// Inverts the addressed role, through the history.
    pub fn invert_color(&mut self, selector: InputSelector)
        ensures
            final(self).model() == apply_model(
                old(self).model(),
                with_role(
                    old(self).colors,
                    selector,
                    flip_spec(role_of(old(self).colors, selector)),
                ),
            ),
    {
        let color = self.get_color_by_mode(selector);
        let flipped = color.flip_rgb();
        let colors = self.make_colors_by_mode(selector, flipped);
        self.change_color(colors);
    }

    /// Inverts every role of the palette at once, through the history.
    pub fn invert_all(&mut self)
        ensures
            final(self).model() == apply_model(
                old(self).model(),
                flip_all_spec(old(self).colors),
            ),
    {
        let colors = Colors {
            background: self.colors.background.flip_rgb(),
            color_a: self.colors.color_a.flip_rgb(),
            color_b: self.colors.color_b.flip_rgb(),
            color_c: self.colors.color_c.flip_rgb(),
            highlight: self.colors.highlight.flip_rgb(),
        };
        self.change_color(colors);
    }

    /// Generates a palette from the addressed role's color with the chosen
    /// harmony rule and applies it, through the history.
    pub fn submit_palette(&mut self, selector: InputSelector, harmony: Harmony)
        ensures
            final(self).model() == apply_model(
                old(self).model(),
                palette_with_harmony_spec(role_of(old(self).colors, selector), harmony),
            ),
    {
        let seed = self.get_color_by_mode(selector);
        let colors = crate::palettes::generate_palette_with_harmony(seed, harmony);
        self.change_color(colors);
    }

    /// Swaps the addressed role's color with the role before it and moves
    /// the selection there, through the history; the returned selector is
    /// the role the color moved to.
    pub fn color_up_by_selection(&mut self, selector: InputSelector) -> (new_selector:
        InputSelector)
        ensures
            new_selector == crate::selector::selector_previous_spec(selector),
            final(self).model() == apply_model(
                old(self).model(),
                with_role(
                    with_role(
                        old(self).colors,
                        crate::selector::selector_previous_spec(selector),
                        role_of(old(self).colors, selector),
                    ),
                    selector,
                    role_of(old(self).colors, crate::selector::selector_previous_spec(selector)),
                ),
            ),
    {
        let target = selector.previous();
        let moving = self.get_color_by_mode(selector);
        let displaced = self.get_color_by_mode(target);
        let colors = replace_role(&self.colors, target, moving);
        let colors = replace_role(&colors, selector, displaced);
        self.change_color(colors);
        target
    }

    /// Swaps the addressed role's color with the role after it and moves the
    /// selection there, through the history; the returned selector is the
    /// role the color moved to.
    pub fn color_down_by_selection(&mut self, selector: InputSelector) -> (new_selector:
        InputSelector)
        ensures
            new_selector == crate::selector::selector_next_spec(selector),
            final(self).model() == apply_model(
                old(self).model(),
                with_role(
                    with_role(
                        old(self).colors,
                        crate::selector::selector_next_spec(selector),
                        role_of(old(self).colors, selector),
                    ),
                    selector,
                    role_of(old(self).colors, crate::selector::selector_next_spec(selector)),
                ),
            ),
    {
        let target = selector.next();
        let moving = self.get_color_by_mode(selector);
        let displaced = self.get_color_by_mode(target);
        let colors = replace_role(&self.colors, target, moving);
        let colors = replace_role(&colors, selector, displaced);
        self.change_color(colors);
        target
    }
}

} // verus!
