//! Exact fixed-point conversions between RGB and HSV.
//!
//! An HSV triple is held as three integers: hue in whole degrees, saturation
//! and value in thousandths. `rgb_to_hsv` rounds half-up to this grid, which
//! is where the (intentional, load-bearing) precision loss of the round trip
//! lives; `from_hsv` truncates each channel toward zero, exactly as the
//! classical sector decomposition prescribes.

use vstd::arithmetic::div_mod::lemma_mod_multiples_vanish;
use vstd::prelude::*;

use crate::colors::ColorRGB;

verus! {

/// Division rounded half-up: `n / d` with fractions of one half and more
/// rounded toward plus infinity (`n` and `d` non-negative).
pub open spec fn rhu(n: int, d: int) -> int {
    (2 * n + d) / (2 * d)
}

/// The largest of the three channels.
pub open spec fn max3(a: int, b: int, c: int) -> int {
    if a >= b && a >= c {
        a
    } else if b >= c {
        b
    } else {
        c
    }
}

/// The smallest of the three channels.
pub open spec fn min3(a: int, b: int, c: int) -> int {
    if a <= b && a <= c {
        a
    } else if b <= c {
        b
    } else {
        c
    }
}

/// The HSV value of a color, in thousandths: the largest channel scaled from
/// `0..=255` to `0..=1000`, rounded half-up.
pub open spec fn hsv_value_spec(c: ColorRGB) -> int {
    rhu(1000 * max3(c.r as int, c.g as int, c.b as int), 255)
}

/// The HSV saturation of a color, in thousandths: zero when the color is
/// black, else the chroma range over the largest channel, rounded half-up.
pub open spec fn hsv_sat_spec(c: ColorRGB) -> int {
    let big = max3(c.r as int, c.g as int, c.b as int);
    let small = min3(c.r as int, c.g as int, c.b as int);
    if big == 0 {
        0
    } else {
        rhu(1000 * (big - small), big)
    }
}

/// The HSV hue of a color, in whole degrees, rounded half-up.
///
/// Grey tones (zero chroma) take hue zero. Otherwise the sector is chosen by
/// exact channel equality, red checked first, and the fractional hue
/// `60 * ((g-b)/delta mod 6)`, `60 * ((b-r)/delta + 2)` or
/// `60 * ((r-g)/delta + 4)` is brought into `0..=360` with a proper
/// (never negative) modulus before rounding. Rounding half-up can reach 360
/// itself: hues just below 360 exist whose nearest whole degree is 360.
pub open spec fn hsv_hue_spec(c: ColorRGB) -> int {
    let r = c.r as int;
    let g = c.g as int;
    let b = c.b as int;
    let big = max3(r, g, b);
    let d = big - min3(r, g, b);
    if d == 0 {
        0
    } else if r == big {
        if g >= b {
            rhu(60 * (g - b), d)
        } else {
            rhu(360 * d - 60 * (b - g), d)
        }
    } else if g == big {
        rhu(120 * d + 60 * b - 60 * r, d)
    } else {
        rhu(240 * d + 60 * r - 60 * g, d)
    }
}

/// How much of the chroma the secondary channel of a hue sector carries, in
/// sixtieths: the triangular wave `60 - |h mod 120 - 60|`, written out by
/// cases.
pub open spec fn sector_frac(h: int) -> int {
    let w = h % 120;
    if w < 60 {
        w
    } else {
        120 - w
    }
}

/// One channel of `from_hsv`, before saturating: the channel carries `q`
/// sixtieths of the chroma `c = v*s` on top of the base `m = v - c`, scaled
/// to `0..=255` and truncated toward zero. `v` and `s` are thousandths, so
/// `v * s` is millionths.
pub open spec fn hsv_channel_raw(v: int, s: int, q: int) -> int {
    let c = v * s;
    let m6 = v * 1000 - c;
    (c * q + 60 * m6) * 255 / 60000000
}

/// One channel of `from_hsv`: values above one (more than 1000 thousandths)
/// can push a channel past 255, where it saturates.
pub open spec fn hsv_channel_spec(v: int, s: int, q: int) -> int {
    let x = hsv_channel_raw(v, s, q);
    if x > 255 {
        255
    } else {
        x
    }
}

/// The whole of `from_hsv`: the six 60-degree sectors assign the full
/// chroma, the partial chroma and the bare base to the three channels.
pub open spec fn from_hsv_spec(h: int, s: int, v: int) -> ColorRGB {
    let full = hsv_channel_spec(v, s, 60) as u8;
    let part = hsv_channel_spec(v, s, sector_frac(h)) as u8;
    let base = hsv_channel_spec(v, s, 0) as u8;
    if h < 60 {
        ColorRGB { r: full, g: part, b: base }
    } else if h < 120 {
        ColorRGB { r: part, g: full, b: base }
    } else if h < 180 {
        ColorRGB { r: base, g: full, b: part }
    } else if h < 240 {
        ColorRGB { r: base, g: part, b: full }
    } else if h < 300 {
        ColorRGB { r: part, g: base, b: full }
    } else {
        ColorRGB { r: full, g: base, b: part }
    }
}

/// A hue brought into `0..360` by a proper modulus: never negative, also for
/// negative inputs.
pub open spec fn wrap_hue(h: int) -> int {
    ((h % 360) + 360) % 360
}

/// A saturation or value shift clamped into `0..=1000` thousandths.
pub open spec fn clamp_mille(x: int) -> int {
    if x < 0 {
        0
    } else if x > 1000 {
        1000
    } else {
        x
    }
}

/// `n / d` stays at or under `b` as long as `n` stays under `(b + 1) * d`.
pub(crate) proof fn lemma_div_le(n: int, d: int, b: int)
    requires
        d > 0,
        0 <= n,
        0 <= b,
        n < (b + 1) * d,
    ensures
        n / d <= b,
{
    assert(n / d <= b) by (nonlinear_arith)
        requires
            d > 0 && 0 <= n && 0 <= b && n < (b + 1) * d,
    ;
}

/// Division rounded half-up, as executable code.
pub(crate) fn round_half_up(n: u64, d: u64) -> (q: u64)
    requires
        1 <= d <= 1000000,
        n <= 2000000000,
    ensures
        q as int == rhu(n as int, d as int),
{
    (2 * n + d) / (2 * d)
}

impl ColorRGB {
    /// The HSV triple of this color: hue in whole degrees (`0..=360`, see
    /// `hsv_hue_spec` for why 360 itself can appear), saturation and value
    /// in thousandths, each rounded half-up.
    pub fn rgb_to_hsv(&self) -> (hsv: (u16, u16, u16))
        ensures
            hsv.0 as int == hsv_hue_spec(*self),
            hsv.1 as int == hsv_sat_spec(*self),
            hsv.2 as int == hsv_value_spec(*self),
            hsv.0 <= 360,
            hsv.1 <= 1000,
            hsv.2 <= 1000,
    {
        let r = self.r as u64;
        let g = self.g as u64;
        let b = self.b as u64;
        let big: u64 = if r >= g && r >= b {
            r
        } else if g >= b {
            g
        } else {
            b
        };
        let small: u64 = if r <= g && r <= b {
            r
        } else if g <= b {
            g
        } else {
            b
        };
        let d = big - small;

        let value = round_half_up(1000 * big, 255);
        proof {
            lemma_div_le(2 * (1000 * (big as int)) + 255, 510int, 1000);
        }

        let sat: u64 = if big == 0 {
            0
        } else {
            let s = round_half_up(1000 * d, big);
            proof {
                lemma_div_le(2 * (1000 * (d as int)) + big, 2 * (big as int), 1000);
            }
            s
        };

        let hue: u64 = if d == 0 {
            0
        } else if r == big {
            if g >= b {
                let h = round_half_up(60 * (g - b), d);
                proof {
                    lemma_div_le(2 * (60 * ((g - b) as int)) + d, 2 * (d as int), 360);
                }
                h
            } else {
                let h = round_half_up(360 * d - 60 * (b - g), d);
                proof {
                    lemma_div_le(2 * (360 * (d as int) - 60 * ((b - g) as int)) + d, 2 * (d as int), 360);
                }
                h
            }
        } else if g == big {
            let h = round_half_up(120 * d + 60 * b - 60 * r, d);
            proof {
                lemma_div_le(2 * (120 * (d as int) + 60 * (b as int) - 60 * (r as int)) + d, 2 * (d as int), 360);
            }
            h
        } else {
            let h = round_half_up(240 * d + 60 * r - 60 * g, d);
            proof {
                lemma_div_le(2 * (240 * (d as int) + 60 * (r as int) - 60 * (g as int)) + d, 2 * (d as int), 360);
            }
            h
        };

        (hue as u16, sat as u16, value as u16)
    }

    /// The color of an HSV triple: hue in degrees, saturation and value in
    /// thousandths. Channels are truncated toward zero; a value above 1000
    /// (brighter than full) saturates the affected channels at 255, so the
    /// function is total over every value a shade multiplication can yield.
    pub fn from_hsv(hsv: (u16, u16, u16)) -> (c: ColorRGB)
        requires
            hsv.0 <= 360,
            hsv.1 <= 1000,
        ensures
            c == from_hsv_spec(hsv.0 as int, hsv.1 as int, hsv.2 as int),
    {
        let (h, s, v) = hsv;
        let w: u16 = h % 120;
        let q: u64 = if w < 60 {
            w as u64
        } else {
            (120 - w) as u64
        };
        let full = hsv_channel(v, s, 60);
        let part = hsv_channel(v, s, q);
        let base = hsv_channel(v, s, 0);
        if h < 60 {
            ColorRGB { r: full, g: part, b: base }
        } else if h < 120 {
            ColorRGB { r: part, g: full, b: base }
        } else if h < 180 {
            ColorRGB { r: base, g: full, b: part }
        } else if h < 240 {
            ColorRGB { r: base, g: part, b: full }
        } else if h < 300 {
            ColorRGB { r: part, g: base, b: full }
        } else {
            ColorRGB { r: full, g: base, b: part }
        }
    }

    /// This color with its hue replaced and saturation and value kept.
    pub fn with_hue(&self, new_hue: u16) -> (c: ColorRGB)
        requires
            new_hue < 360,
        ensures
            c == from_hsv_spec(new_hue as int, hsv_sat_spec(*self), hsv_value_spec(*self)),
    {
        let (_, s, v) = self.rgb_to_hsv();
        ColorRGB::from_hsv((new_hue, s, v))
    }

    /// This color with its saturation replaced (thousandths) and hue and
    /// value kept.
    pub fn with_saturation(&self, new_saturation: u16) -> (c: ColorRGB)
        requires
            new_saturation <= 1000,
        ensures
            c == from_hsv_spec(hsv_hue_spec(*self), new_saturation as int, hsv_value_spec(*self)),
    {
        let (h, _, v) = self.rgb_to_hsv();
        ColorRGB::from_hsv((h, new_saturation, v))
    }

    /// This color with its value replaced (thousandths) and hue and
    /// saturation kept.
    pub fn with_value(&self, new_value: u16) -> (c: ColorRGB)
        requires
            new_value <= 1000,
        ensures
            c == from_hsv_spec(hsv_hue_spec(*self), hsv_sat_spec(*self), new_value as int),
    {
        let (h, s, _) = self.rgb_to_hsv();
        ColorRGB::from_hsv((h, s, new_value))
    }

    /// This color with its hue shifted by `amount` degrees, wrapped by a
    /// proper modulus into `0..360`; negative shifts wrap upward, they never
    /// leave a negative hue.
    pub fn shift_hue(&self, amount: i32) -> (c: ColorRGB)
        ensures
            c == from_hsv_spec(
                wrap_hue(hsv_hue_spec(*self) + amount as int),
                hsv_sat_spec(*self),
                hsv_value_spec(*self),
            ),
    {
        let (h, s, v) = self.rgb_to_hsv();
        // 2147483880 is a multiple of 360 large enough to make the sum
        // non-negative for every i32 shift, so one plain `%` is a proper
        // modulus.
        let t: i64 = h as i64 + amount as i64 + 2147483880;
        let h2: i64 = t % 360;
        proof {
            let x = h as int + amount as int;
            lemma_mod_multiples_vanish(5965233, x, 360);
            lemma_mod_multiples_vanish(1, x % 360, 360);
        }
        ColorRGB::from_hsv((h2 as u16, s, v))
    }

    /// This color with `amount` thousandths added to its saturation, clamped
    /// into `0..=1000`.
    pub fn shift_saturation(&self, amount: i32) -> (c: ColorRGB)
        ensures
            c == from_hsv_spec(
                hsv_hue_spec(*self),
                clamp_mille(hsv_sat_spec(*self) + amount as int),
                hsv_value_spec(*self),
            ),
    {
        let (h, s, v) = self.rgb_to_hsv();
        let shifted: i64 = s as i64 + amount as i64;
        let s2: u16 = if shifted < 0 {
            0
        } else if shifted > 1000 {
            1000
        } else {
            shifted as u16
        };
        ColorRGB::from_hsv((h, s2, v))
    }

    /// This color with `amount` thousandths added to its value, clamped into
    /// `0..=1000`.
    pub fn shift_value(&self, amount: i32) -> (c: ColorRGB)
        ensures
            c == from_hsv_spec(
                hsv_hue_spec(*self),
                hsv_sat_spec(*self),
                clamp_mille(hsv_value_spec(*self) + amount as int),
            ),
    {
        let (h, s, v) = self.rgb_to_hsv();
        let shifted: i64 = v as i64 + amount as i64;
        let v2: u16 = if shifted < 0 {
            0
        } else if shifted > 1000 {
            1000
        } else {
            shifted as u16
        };
        ColorRGB::from_hsv((h, s, v2))
    }
}

/// The intermediate products of one `from_hsv` channel stay far inside the
/// 64-bit range, and the base term never goes negative.
proof fn lemma_hsv_channel_bounds(v: int, s: int, q: int)
    requires
        0 <= v <= 65535,
        0 <= s <= 1000,
        0 <= q <= 60,
    ensures
        0 <= v * s <= 65535000,
        v * s <= v * 1000,
        (v * s * q + 60 * (v * 1000 - v * s)) * 255 <= 4000000000000,
        0 <= v * s * q,
{
    assert(0 <= v * s <= 65535000 && v * s <= v * 1000 && (v * s * q + 60 * (v * 1000 - v * s))
        * 255 <= 4000000000000 && 0 <= v * s * q) by (nonlinear_arith)
        requires
            0 <= v <= 65535 && 0 <= s <= 1000 && 0 <= q <= 60,
    ;
}

/// One saturating channel of `from_hsv`, as executable code. `q` says how
/// many sixtieths of the chroma the channel carries.
fn hsv_channel(v: u16, s: u16, q: u64) -> (x: u8)
    requires
        s <= 1000,
        q <= 60,
    ensures
        x as int == hsv_channel_spec(v as int, s as int, q as int),
{
    proof {
        lemma_hsv_channel_bounds(v as int, s as int, q as int);
    }
    let c: u64 = (v as u64) * (s as u64);
    let m6: u64 = (v as u64) * 1000 - c;
    let num: u64 = (c * q + 60 * m6) * 255;
    let x: u64 = num / 60000000;
    if x > 255 {
        255u8
    } else {
        x as u8
    }
}

} // verus!
