//! The RGB color value type, the five-role palette record, channel shading
//! and inversion.
//!
//! A color is the unsigned byte triple `(r, g, b)`; everything else (hex
//! text, HSV triple, shades, luminance) is derived from it on demand.
//! Shade fractions are given in thousandths: `-1000` stands for the real
//! fraction `-1.0` (full darkening), `1000` for `1.0` (full brightening).

use vstd::prelude::*;

verus! {

/// One RGB color: three channels, each `0..=255`. Equality is channel-wise.
#[derive(Clone, Copy, Debug, PartialEq, Eq, Structural)]
pub struct ColorRGB {
    pub r: u8,
    pub g: u8,
    pub b: u8,
}

/// A palette: one color for each of the five named roles.
#[derive(Clone, Copy, Debug, PartialEq, Eq, Structural)]
pub struct Colors {
    pub background: ColorRGB,
    pub color_a: ColorRGB,
    pub color_b: ColorRGB,
    pub color_c: ColorRGB,
    pub highlight: ColorRGB,
}

/// The two recoverable failures of this engine: malformed hex text (or an
/// unknown alias), and RGB text that breaks the `r,g,b` format rules.
#[derive(Clone, Copy, Debug, PartialEq, Eq, Structural)]
pub enum ColorError {
    InvalidColor,
    InvalidRgbFormat,
}

/// The magnitude of a shade fraction given in thousandths.
pub open spec fn frac_abs(frac: int) -> int {
    if frac < 0 {
        -frac
    } else {
        frac
    }
}

/// Darkening one channel by a fraction `dec` (thousandths, sign ignored):
/// subtract the truncated product `x * |dec| / 1000`, and snap to 0 when the
/// magnitude reaches one.
pub open spec fn darken_channel_spec(x: int, dec: int) -> int {
    let a = frac_abs(dec);
    if a >= 1000 {
        0
    } else {
        x - x * a / 1000
    }
}

/// Brightening one channel by a fraction `inc` (thousandths, sign ignored):
/// add the truncated product `(255 - x) * |inc| / 1000`, and snap to 255 when
/// the magnitude reaches one.
pub open spec fn brighten_channel_spec(x: int, inc: int) -> int {
    let a = frac_abs(inc);
    if a >= 1000 {
        255
    } else {
        x + (255 - x) * a / 1000
    }
}

/// One channel of `shade`: negative fractions darken, others brighten.
pub open spec fn shade_channel_spec(x: int, frac: int) -> int {
    if frac < 0 {
        darken_channel_spec(x, frac)
    } else {
        brighten_channel_spec(x, frac)
    }
}

/// The whole of `shade`, channel by channel.
pub open spec fn shade_spec(c: ColorRGB, frac: int) -> ColorRGB {
    ColorRGB {
        r: shade_channel_spec(c.r as int, frac) as u8,
        g: shade_channel_spec(c.g as int, frac) as u8,
        b: shade_channel_spec(c.b as int, frac) as u8,
    }
}

/// Channel inversion: every channel is replaced by its distance from 255.
pub open spec fn flip_spec(c: ColorRGB) -> ColorRGB {
    ColorRGB { r: (255 - c.r) as u8, g: (255 - c.g) as u8, b: (255 - c.b) as u8 }
}

/// Inverting twice gives the starting color back, exactly:
/// `255 - (255 - x) == x` on every channel.
pub proof fn lemma_flip_involution(c: ColorRGB)
    ensures
        flip_spec(flip_spec(c)) == c,
{
}

/// A darkened channel stays a byte.
proof fn lemma_darken_channel_in_range(x: int, dec: int)
    requires
        0 <= x <= 255,
    ensures
        0 <= darken_channel_spec(x, dec) <= 255,
{
    let a = frac_abs(dec);
    if a < 1000 {
        assert(0 <= x * a / 1000 <= x) by (nonlinear_arith)
            requires
                0 <= x <= 255 && 0 <= a < 1000,
        ;
    }
}

/// A brightened channel stays a byte.
proof fn lemma_brighten_channel_in_range(x: int, inc: int)
    requires
        0 <= x <= 255,
    ensures
        0 <= brighten_channel_spec(x, inc) <= 255,
{
    let a = frac_abs(inc);
    if a < 1000 {
        assert(0 <= (255 - x) * a / 1000 <= 255 - x) by (nonlinear_arith)
            requires
                0 <= x <= 255 && 0 <= a < 1000,
        ;
    }
}

impl ColorRGB {
    /// Builds the color holding exactly the three given channels.
    pub fn new(r: u8, g: u8, b: u8) -> (c: ColorRGB)
        ensures
            c == (ColorRGB { r, g, b }),
    {
        ColorRGB { r, g, b }
    }

    /// The inverted color: each channel becomes `255 - channel`.
    pub fn flip_rgb(&self) -> (c: ColorRGB)
        ensures
            c == flip_spec(*self),
    {
        let r = u8::MAX - self.r;
        let g = u8::MAX - self.g;
        let b = u8::MAX - self.b;
        ColorRGB { r, g, b }
    }

    /// A shaded variant of this color. `frac` is a fraction in thousandths:
    /// negative values darken, zero and positive values brighten, each
    /// channel independently; magnitudes of 1000 or more snap the channels
    /// straight to their floor or ceiling. A fraction of zero returns the
    /// color unchanged.
    pub fn shade(&self, frac: i32) -> (c: ColorRGB)
        ensures
            c == shade_spec(*self, frac as int),
            frac == 0 ==> c == *self,
            frac >= 1000 ==> c == (ColorRGB { r: 255, g: 255, b: 255 }),
            frac <= -1000 ==> c == (ColorRGB { r: 0, g: 0, b: 0 }),
    {
        if frac < 0 {
            let r = darken_channel(self.r, frac);
            let g = darken_channel(self.g, frac);
            let b = darken_channel(self.b, frac);
            ColorRGB { r, g, b }
        } else {
            let r = brighten_channel(self.r, frac);
            let g = brighten_channel(self.g, frac);
            let b = brighten_channel(self.b, frac);
            ColorRGB { r, g, b }
        }
    }
}

impl Default for ColorRGB {
    /// The default color is black, `(0, 0, 0)`.
    fn default() -> (c: ColorRGB)
        ensures
            c == (ColorRGB { r: 0, g: 0, b: 0 }),
    {
        ColorRGB { r: 0, g: 0, b: 0 }
    }
}

impl Default for Colors {
    /// The default palette holds the default (black) color in every role.
    fn default() -> (c: Colors)
        ensures
            c.background == (ColorRGB { r: 0, g: 0, b: 0 }),
            c.color_a == c.background && c.color_b == c.background,
            c.color_c == c.background && c.highlight == c.background,
    {
        let black = ColorRGB { r: 0, g: 0, b: 0 };
        Colors {
            background: black,
            color_a: black,
            color_b: black,
            color_c: black,
            highlight: black,
        }
    }
}

/// Brightens one channel toward 255 by `inc` thousandths (sign ignored).
pub fn brighten_channel(x: u8, inc: i32) -> (y: u8)
    ensures
        y as int == brighten_channel_spec(x as int, inc as int),
{
    let a: i64 = if inc < 0 {
        -(inc as i64)
    } else {
        inc as i64
    };
    if a >= 1000 {
        return 255u8;
    }
    proof {
        lemma_brighten_channel_in_range(x as int, inc as int);
    }
    let head: i64 = 255 - (x as i64);
    let add: i64 = head * a / 1000;
    (x as i64 + add) as u8
}

/// Darkens one channel toward 0 by `dec` thousandths (sign ignored).
pub fn darken_channel(x: u8, dec: i32) -> (y: u8)
    ensures
        y as int == darken_channel_spec(x as int, dec as int),
{
    let a: i64 = if dec < 0 {
        -(dec as i64)
    } else {
        dec as i64
    };
    if a >= 1000 {
        return 0u8;
    }
    proof {
        lemma_darken_channel_in_range(x as int, dec as int);
    }
    let sub: i64 = (x as i64) * a / 1000;
    (x as i64 - sub) as u8
}

/// The shade ramp: the nineteen shades of a color at the fractions
/// `-0.9, -0.8, ..., -0.1, 0.0, 0.1, ..., 0.9` (in thousandths:
/// `-900, ..., 900` in steps of 100). The middle entry is the color itself.
pub fn create_shades(color: &ColorRGB) -> (shades: Vec<ColorRGB>)
    ensures
        shades@.len() == 19,
        forall|i: int|
            0 <= i < 19 ==> shades@[i] == shade_spec(*color, (i - 9) * 100),
        shades@[9] == *color,
{
    let mut shades: Vec<ColorRGB> = Vec::new();
    let mut i: usize = 0;
    while i < 19
        invariant
            i <= 19,
            shades@.len() == i as int,
            forall|k: int|
                0 <= k < i as int ==> shades@[k] == shade_spec(*color, (k - 9) * 100),
        decreases 19 - i,
    {
        let frac: i32 = (i as i32 - 9) * 100;
        shades.push(color.shade(frac));
        i = i + 1;
    }
    shades
}

/// The shade browser's rows: the nineteen shades of the ramp framed by one
/// blank spacer row at each end, twenty-one rows in all. A blank row carries
/// no color and submits nothing.
pub fn create_shade_lines(color: &ColorRGB) -> (rows: Vec<Option<ColorRGB>>)
    ensures
        rows@.len() == 21,
        rows@[0].is_none(),
        rows@[20].is_none(),
        forall|i: int|
            1 <= i < 20 ==> rows@[i] == Some(shade_spec(*color, (i - 10) * 100)),
{
    let shades = create_shades(color);
    let mut rows: Vec<Option<ColorRGB>> = Vec::new();
    rows.push(None);
    let mut i: usize = 0;
    while i < 19
        invariant
            i <= 19,
            shades@.len() == 19,
            forall|k: int|
                0 <= k < 19 ==> shades@[k] == shade_spec(*color, (k - 9) * 100),
            rows@.len() == i + 1,
            rows@[0].is_none(),
            forall|k: int| 1 <= k <= i as int ==> rows@[k] == Some(shades@[k - 1]),
        decreases 19 - i,
    {
        rows.push(Some(shades[i]));
        i = i + 1;
    }
    rows.push(None);
    rows
}

} // verus!
