//! Cyclic selection: the five role names, the HSV slider modes, the input
//! and display modes, and the two list-with-selection types whose `next` and
//! `previous` wrap around.

use vstd::prelude::*;

use crate::colors::ColorRGB;
use crate::hsv::{clamp_mille, from_hsv_spec, hsv_hue_spec, hsv_sat_spec, hsv_value_spec, wrap_hue};

verus! {

/// Which of the five palette roles the session is addressing.
#[derive(Clone, Copy, Debug, PartialEq, Eq, Structural)]
pub enum InputSelector {
    Background,
    A,
    B,
    C,
    Highlight,
}

impl Default for InputSelector {
    /// Role browsing starts at the background.
    fn default() -> (s: InputSelector)
        ensures
            s == InputSelector::Background,
    {
        InputSelector::Background
    }
}

/// The order in which role browsing cycles forward.
pub open spec fn selector_next_spec(s: InputSelector) -> InputSelector {
    match s {
        InputSelector::Background => InputSelector::A,
        InputSelector::A => InputSelector::B,
        InputSelector::B => InputSelector::C,
        InputSelector::C => InputSelector::Highlight,
        InputSelector::Highlight => InputSelector::Background,
    }
}

/// The order in which role browsing cycles backward.
pub open spec fn selector_previous_spec(s: InputSelector) -> InputSelector {
    match s {
        InputSelector::Background => InputSelector::Highlight,
        InputSelector::A => InputSelector::Background,
        InputSelector::B => InputSelector::A,
        InputSelector::C => InputSelector::B,
        InputSelector::Highlight => InputSelector::C,
    }
}

impl InputSelector {
    /// The role after this one, wrapping from highlight to background.
    pub fn next(&self) -> (s: InputSelector)
        ensures
            s == selector_next_spec(*self),
    {
        match self {
            InputSelector::Background => InputSelector::A,
            InputSelector::A => InputSelector::B,
            InputSelector::B => InputSelector::C,
            InputSelector::C => InputSelector::Highlight,
            InputSelector::Highlight => InputSelector::Background,
        }
    }

    /// The role before this one, wrapping from background to highlight.
    pub fn previous(&self) -> (s: InputSelector)
        ensures
            s == selector_previous_spec(*self),
    {
        match self {
            InputSelector::Background => InputSelector::Highlight,
            InputSelector::A => InputSelector::Background,
            InputSelector::B => InputSelector::A,
            InputSelector::C => InputSelector::B,
            InputSelector::Highlight => InputSelector::C,
        }
    }
}

/// Stepping a role forward and back again returns to the start.
pub proof fn lemma_selector_cycle(s: InputSelector)
    ensures
        selector_previous_spec(selector_next_spec(s)) == s,
        selector_next_spec(selector_previous_spec(s)) == s,
{
}

/// Which HSV component the slider popup is editing.
#[derive(Clone, Copy, Debug, PartialEq, Eq, Structural)]
pub enum HSVMode {
    H,
    S,
    V,
}

impl Default for HSVMode {
    /// Slider editing starts at the saturation component.
    fn default() -> (m: HSVMode)
        ensures
            m == HSVMode::S,
    {
        HSVMode::S
    }
}

impl HSVMode {
    /// The slider component after this one: hue, saturation, value, and
    /// around again.
    pub fn next(&self) -> (m: HSVMode)
        ensures
            m == match *self {
                HSVMode::H => HSVMode::S,
                HSVMode::S => HSVMode::V,
                HSVMode::V => HSVMode::H,
            },
    {
        match self {
            HSVMode::H => HSVMode::S,
            HSVMode::S => HSVMode::V,
            HSVMode::V => HSVMode::H,
        }
    }

    /// The slider component before this one.
    pub fn previous(&self) -> (m: HSVMode)
        ensures
            m == match *self {
                HSVMode::H => HSVMode::V,
                HSVMode::S => HSVMode::H,
                HSVMode::V => HSVMode::S,
            },
    {
        match self {
            HSVMode::H => HSVMode::V,
            HSVMode::S => HSVMode::H,
            HSVMode::V => HSVMode::S,
        }
    }

    /// One upward slider step on the edited component: one degree of hue, or
    /// one hundredth (ten thousandths) of saturation or value.
    pub fn increase_by_mode(&self, color: &ColorRGB) -> (c: ColorRGB)
        ensures
            c == match *self {
                HSVMode::H => from_hsv_spec(
                    wrap_hue(hsv_hue_spec(*color) + 1),
                    hsv_sat_spec(*color),
                    hsv_value_spec(*color),
                ),
                HSVMode::S => from_hsv_spec(
                    hsv_hue_spec(*color),
                    clamp_mille(hsv_sat_spec(*color) + 10),
                    hsv_value_spec(*color),
                ),
                HSVMode::V => from_hsv_spec(
                    hsv_hue_spec(*color),
                    hsv_sat_spec(*color),
                    clamp_mille(hsv_value_spec(*color) + 10),
                ),
            },
    {
        match self {
            HSVMode::H => color.shift_hue(1),
            HSVMode::S => color.shift_saturation(10),
            HSVMode::V => color.shift_value(10),
        }
    }

    /// One downward slider step on the edited component.
    pub fn decrease_by_mode(&self, color: &ColorRGB) -> (c: ColorRGB)
        ensures
            c == match *self {
                HSVMode::H => from_hsv_spec(
                    wrap_hue(hsv_hue_spec(*color) - 1),
                    hsv_sat_spec(*color),
                    hsv_value_spec(*color),
                ),
                HSVMode::S => from_hsv_spec(
                    hsv_hue_spec(*color),
                    clamp_mille(hsv_sat_spec(*color) - 10),
                    hsv_value_spec(*color),
                ),
                HSVMode::V => from_hsv_spec(
                    hsv_hue_spec(*color),
                    hsv_sat_spec(*color),
                    clamp_mille(hsv_value_spec(*color) - 10),
                ),
            },
    {
        match self {
            HSVMode::H => color.shift_hue(-1),
            HSVMode::S => color.shift_saturation(-10),
            HSVMode::V => color.shift_value(-10),
        }
    }
}

/// Which text form the input prompt expects.
#[derive(Clone, Copy, Debug, PartialEq, Eq, Structural)]
pub enum InputMode {
    HEX,
    RGB,
}

impl Default for InputMode {
    /// The prompt starts out expecting hex text.
    fn default() -> (m: InputMode)
        ensures
            m == InputMode::HEX,
    {
        InputMode::HEX
    }
}

/// Which popup, if any, the session is showing.
#[derive(Clone, Copy, Debug, PartialEq, Eq, Structural)]
pub enum DisplayMode {
    Normal,
    InputPrompt,
    Shades,
    HSV,
    Palette,
}

impl Default for DisplayMode {
    /// A session starts with no popup open.
    fn default() -> (m: DisplayMode)
        ensures
            m == DisplayMode::Normal,
    {
        DisplayMode::Normal
    }
}

/// The selection after one forward step over a list of `n` items: an empty
/// list is left alone, an unset selection starts at index 0, the last index
/// wraps to 0.
pub open spec fn cycle_next(sel: Option<usize>, n: int) -> Option<usize> {
    if n == 0 {
        sel
    } else {
        match sel {
            Option::None => Some(0usize),
            Option::Some(i) => if i as int >= n - 1 {
                Some(0usize)
            } else {
                Some((i + 1) as usize)
            },
        }
    }
}

/// The selection after one backward step over a list of `n` items: an empty
/// list is left alone, an unset selection starts at index 0 (not at the
/// end), and index 0 wraps to the last index.
pub open spec fn cycle_previous(sel: Option<usize>, n: int) -> Option<usize> {
    if n == 0 {
        sel
    } else {
        match sel {
            Option::None => Some(0usize),
            Option::Some(i) => if i == 0 {
                Some((n - 1) as usize)
            } else {
                Some((i - 1) as usize)
            },
        }
    }
}

/// An ordered list of items with one optional selected index that `next` and
/// `previous` move cyclically.
#[derive(Clone)]
pub struct StatefulList<T> {
    pub selected: Option<usize>,
    pub items: Vec<T>,
}

impl<T> StatefulList<T> {
    /// A list over the given items with the selection unset.
    pub fn with_items(items: Vec<T>) -> (list: StatefulList<T>)
        ensures
            list.items@ == items@,
            list.selected.is_none(),
    {
        StatefulList { selected: None, items }
    }

    /// The currently selected index, if any.
    pub fn selected(&self) -> (sel: Option<usize>)
        ensures
            sel == self.selected,
    {
        self.selected
    }

    /// Moves the selection one item forward, wrapping past the end; on an
    /// empty list nothing changes, from an unset selection index 0 is
    /// selected.
    pub fn next(&mut self)
        ensures
            final(self).items@ == old(self).items@,
            final(self).selected == cycle_next(old(self).selected, old(self).items@.len() as int),
    {
        if self.items.len() == 0 {
            return ;
        }
        let i: usize = match self.selected {
            Some(i) => if i >= self.items.len() - 1 {
                0
            } else {
                i + 1
            },
            None => 0,
        };
        self.selected = Some(i);
    }

    /// Moves the selection one item backward, wrapping past the start; on an
    /// empty list nothing changes, from an unset selection index 0 is
    /// selected.
    pub fn previous(&mut self)
        ensures
            final(self).items@ == old(self).items@,
            final(self).selected == cycle_previous(
                old(self).selected,
                old(self).items@.len() as int,
            ),
    {
        if self.items.len() == 0 {
            return ;
        }
        let i: usize = match self.selected {
            Some(i) => if i == 0 {
                self.items.len() - 1
            } else {
                i - 1
            },
            None => 0,
        };
        self.selected = Some(i);
    }

    /// Clears the selection.
    pub fn unselect(&mut self)
        ensures
            final(self).items@ == old(self).items@,
            final(self).selected.is_none(),
    {
        self.selected = None;
    }

    /// Drops items from the front until at most `max_length` remain; the
    /// selection is left untouched, exactly as the session's history views
    /// expect.
    pub fn trim_to_length(&mut self, max_length: usize)
        ensures
            final(self).selected == old(self).selected,
            old(self).items@.len() <= max_length as int ==> final(self).items@ == old(
                self,
            ).items@,
            old(self).items@.len() > max_length as int ==> final(self).items@ == old(
                self,
            ).items@.skip(old(self).items@.len() - max_length as int),
    {
        proof {
            assert(old(self).items@.skip(0) =~= old(self).items@);
        }
        while self.items.len() > max_length
            invariant
                self.selected == old(self).selected,
                self.items@ == old(self).items@.skip(
                    old(self).items@.len() - self.items@.len(),
                ),
                self.items@.len() <= old(self).items@.len(),
                old(self).items@.len() <= max_length as int ==> self.items@ == old(self).items@,
                old(self).items@.len() > max_length as int ==> self.items@.len()
                    >= max_length as int,
            decreases self.items@.len(),
        {
            proof {
                assert(old(self).items@.skip(old(self).items@.len() - self.items@.len()).remove(0)
                    =~= old(self).items@.skip(old(self).items@.len() - (self.items@.len() - 1)));
            }
            self.items.remove(0);
        }
        proof {
            if old(self).items@.len() <= max_length as int {
                assert(self.items@ =~= old(self).items@);
            }
        }
    }
}

/// A sequence of keyframes with one optional selected index, cycled exactly
/// as a `StatefulList` selection is.
#[derive(Clone)]
pub struct Animation<T> {
    pub selected: Option<usize>,
    pub keyframes: Vec<T>,
}

impl<T> Animation<T> {
    /// An animation over the given keyframes with the selection unset.
    pub fn with_items(keyframes: Vec<T>) -> (anim: Animation<T>)
        ensures
            anim.keyframes@ == keyframes@,
            anim.selected.is_none(),
    {
        Animation { selected: None, keyframes }
    }

    /// The currently selected keyframe index, if any.
    pub fn selected(&self) -> (sel: Option<usize>)
        ensures
            sel == self.selected,
    {
        self.selected
    }

    /// Advances to the next keyframe, wrapping past the end.
    pub fn next(&mut self)
        ensures
            final(self).keyframes@ == old(self).keyframes@,
            final(self).selected == cycle_next(
                old(self).selected,
                old(self).keyframes@.len() as int,
            ),
    {
        if self.keyframes.len() == 0 {
            return ;
        }
        let i: usize = match self.selected {
            Some(i) => if i >= self.keyframes.len() - 1 {
                0
            } else {
                i + 1
            },
            None => 0,
        };
        self.selected = Some(i);
    }

    /// Steps back to the previous keyframe, wrapping past the start.
    pub fn previous(&mut self)
        ensures
            final(self).keyframes@ == old(self).keyframes@,
            final(self).selected == cycle_previous(
                old(self).selected,
                old(self).keyframes@.len() as int,
            ),
    {
        if self.keyframes.len() == 0 {
            return ;
        }
        let i: usize = match self.selected {
            Some(i) => if i == 0 {
                self.keyframes.len() - 1
            } else {
                i - 1
            },
            None => 0,
        };
        self.selected = Some(i);
    }
}

} // verus!
