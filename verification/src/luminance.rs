//! Relative luminance and the contrast heuristic, in exact integer fixed
//! point.
//!
//! A channel is normalized to millionths of full scale and sent through the
//! 2.2 gamma curve: `x^2.2 = x^(11/5)` is computed as the floor fifth root
//! of `x^11`, every intermediate product truncated back to millionths.
//! Luminance is the usual weighted sum `0.2126 r + 0.7152 g + 0.0722 b`, and
//! the contrast of two colors is `(hi - lo) / (hi + 0.1)` over their
//! luminances — deliberately asymmetric in the denominator, which uses the
//! brighter luminance only, and exactly symmetric in its two arguments.

use vstd::prelude::*;

use crate::colors::{flip_spec, ColorRGB};

verus! {

/// The fifth power.
pub open spec fn pow5(x: int) -> int {
    x * x * x * x * x
}

/// `r` is the floor fifth root of `n`.
pub open spec fn is_fifth_root(n: int, r: int) -> bool {
    0 <= r && pow5(r) <= n && n < pow5(r + 1)
}

/// The floor fifth root of a non-negative number.
pub open spec fn iroot5_spec(n: int) -> int {
    choose|r: int| is_fifth_root(n, r)
}

/// The fifth power is monotone over the non-negative numbers.
proof fn lemma_pow5_mono(a: int, b: int)
    requires
        0 <= a <= b,
    ensures
        pow5(a) <= pow5(b),
{
    assert(a * a * a * a * a <= b * b * b * b * b) by (nonlinear_arith)
        requires
            0 <= a <= b,
    ;
}

/// The floor fifth root is unique, so any witness pins `iroot5_spec` down.
proof fn lemma_fifth_root_unique(n: int, r: int)
    requires
        is_fifth_root(n, r),
    ensures
        iroot5_spec(n) == r,
{
    let picked = choose|x: int| is_fifth_root(n, x);
    assert(is_fifth_root(n, picked));
    if picked < r {
        lemma_pow5_mono(picked + 1, r);
        assert(false);
    }
    if r < picked {
        lemma_pow5_mono(r + 1, picked);
        assert(false);
    }
}

/// The fifth power of a number up to a million and one, as executable code.
fn pow5_exec(x: u64) -> (p: u128)
    requires
        x <= 1000001,
    ensures
        p as int == pow5(x as int),
{
    proof {
        assert(x as int * x as int <= 1000001 * 1000001 && x as int * x as int * (x as int) <= 1000001
            * 1000001 * 1000001 && x as int * x as int * (x as int) * (x as int) <= 1000001 * 1000001
            * 1000001 * 1000001 && x as int * x as int * (x as int) * (x as int) * (x as int)
            <= 1000001 * 1000001 * 1000001 * 1000001 * 1000001) by (nonlinear_arith)
            requires
                0 <= x as int <= 1000001,
        ;
    }
    let w = x as u128;
    w * w * w * w * w
}

/// The floor fifth root of a number up to `10^30`, by binary search; the
/// result is at most a million.
fn iroot5(n: u128) -> (r: u64)
    requires
        n as int <= 1000000000000000000000000000000,
    ensures
        r as int == iroot5_spec(n as int),
        is_fifth_root(n as int, r as int),
        r <= 1000000,
{
    proof {
        assert(pow5(1000001int) > 1000000000000000000000000000000) by (nonlinear_arith);
        assert(pow5(0int) == 0);
    }
    let mut lo: u64 = 0;
    let mut hi: u64 = 1000001;
    while hi - lo > 1
        invariant
            lo < hi <= 1000001,
            pow5(lo as int) <= n as int,
            (n as int) < pow5(hi as int),
        decreases hi - lo,
    {
        let mid = lo + (hi - lo) / 2;
        if pow5_exec(mid) <= n {
            lo = mid;
        } else {
            hi = mid;
        }
    }
    proof {
        lemma_fifth_root_unique(n as int, lo as int);
    }
    lo
}

/// One channel through the gamma curve, in millionths: normalize to
/// millionths, raise to the eleventh power with each intermediate product
/// truncated back to millionths, and take the floor fifth root, rescaled to
/// millionths.
pub open spec fn linearize_spec(k: int) -> int {
    let q = k * 1000000 / 255;
    let p2 = q * q / 1000000;
    let p4 = p2 * p2 / 1000000;
    let p8 = p4 * p4 / 1000000;
    let p10 = p8 * p2 / 1000000;
    let p11 = p10 * q / 1000000;
    iroot5_spec(p11 * 1000000000000000000000000)
}

/// The relative luminance of a color, in millionths: the weighted sum
/// `0.2126 r + 0.7152 g + 0.0722 b` of the gamma-corrected channels.
pub open spec fn luminance_spec(c: ColorRGB) -> int {
    (2126 * linearize_spec(c.r as int) + 7152 * linearize_spec(c.g as int) + 722 * linearize_spec(
        c.b as int,
    )) / 10000
}

/// The contrast of two luminances, in millionths: their distance over the
/// brighter one plus one tenth.
pub open spec fn contrast_of(la: int, lb: int) -> int {
    let hi = if la >= lb {
        la
    } else {
        lb
    };
    let lo = if la >= lb {
        lb
    } else {
        la
    };
    (hi - lo) * 1000000 / (hi + 100000)
}

/// The contrast of two colors.
pub open spec fn contrast_spec(a: ColorRGB, b: ColorRGB) -> int {
    contrast_of(luminance_spec(a), luminance_spec(b))
}

/// Contrast is order-independent: swapping the two colors cannot change it,
/// since only the brighter and the darker luminance enter the formula.
pub proof fn lemma_contrast_symmetric(a: ColorRGB, b: ColorRGB)
    ensures
        contrast_spec(a, b) == contrast_spec(b, a),
{
}

/// Division by a positive constant keeps a non-negative bound.
proof fn lemma_quotient_bound(n: int, d: int, b: int)
    requires
        d > 0,
        0 <= n,
        0 <= b,
        n < (b + 1) * d,
    ensures
        0 <= n / d <= b,
{
    crate::hsv::lemma_div_le(n, d, b);
    assert(n / d >= 0) by (nonlinear_arith)
        requires
            d > 0 && 0 <= n,
    ;
}

/// One channel through the gamma curve, as executable code.
pub fn linearize_channel(k: u8) -> (g: u64)
    ensures
        g as int == linearize_spec(k as int),
        g <= 1000000,
{
    let q: u64 = (k as u64) * 1000000 / 255;
    proof {
        lemma_quotient_bound((k as int) * 1000000, 255, 1000000);
        assert((q as int) * (q as int) <= 1000000000000) by (nonlinear_arith)
            requires
                0 <= q as int <= 1000000,
        ;
        lemma_quotient_bound((q as int) * (q as int), 1000000, 1000000);
    }
    let p2: u64 = q * q / 1000000;
    proof {
        assert((p2 as int) * (p2 as int) <= 1000000000000) by (nonlinear_arith)
            requires
                0 <= p2 as int <= 1000000,
        ;
        lemma_quotient_bound((p2 as int) * (p2 as int), 1000000, 1000000);
    }
    let p4: u64 = p2 * p2 / 1000000;
    proof {
        assert((p4 as int) * (p4 as int) <= 1000000000000) by (nonlinear_arith)
            requires
                0 <= p4 as int <= 1000000,
        ;
        lemma_quotient_bound((p4 as int) * (p4 as int), 1000000, 1000000);
    }
    let p8: u64 = p4 * p4 / 1000000;
    proof {
        assert((p8 as int) * (p2 as int) <= 1000000000000) by (nonlinear_arith)
            requires
                0 <= p8 as int <= 1000000 && 0 <= p2 as int <= 1000000,
        ;
        lemma_quotient_bound((p8 as int) * (p2 as int), 1000000, 1000000);
    }
    let p10: u64 = p8 * p2 / 1000000;
    proof {
        assert((p10 as int) * (q as int) <= 1000000000000) by (nonlinear_arith)
            requires
                0 <= p10 as int <= 1000000 && 0 <= q as int <= 1000000,
        ;
        lemma_quotient_bound((p10 as int) * (q as int), 1000000, 1000000);
    }
    let p11: u64 = p10 * q / 1000000;
    proof {
        assert((p11 as int) * 1000000000000000000000000 <= 1000000000000000000000000000000)
            by (nonlinear_arith)
            requires
                0 <= p11 as int <= 1000000,
        ;
    }
    let n: u128 = (p11 as u128) * 1000000000000000000000000;
    iroot5(n)
}

/// The relative luminance of a color, in millionths of full brightness.
pub fn get_luminance(x: &ColorRGB) -> (lum: u32)
    ensures
        lum as int == luminance_spec(*x),
        lum <= 1000000,
{
    let lr = linearize_channel(x.r);
    let lg = linearize_channel(x.g);
    let lb = linearize_channel(x.b);
    let weighted: u64 = 2126 * lr + 7152 * lg + 722 * lb;
    proof {
        crate::hsv::lemma_div_le(weighted as int, 10000, 1000000);
    }
    (weighted / 10000) as u32
}

/// The contrast between two colors, in millionths: the distance of their
/// luminances over the brighter one plus one tenth. Symmetric in its
/// arguments, and always below one (a million millionths).
pub fn get_contrast(x: &ColorRGB, y: &ColorRGB) -> (contrast: u32)
    ensures
        contrast as int == contrast_spec(*x, *y),
        contrast < 1000000,
{
    let lx = get_luminance(x);
    let ly = get_luminance(y);
    let hi: u64 = if lx >= ly {
        lx as u64
    } else {
        ly as u64
    };
    let lo: u64 = if lx >= ly {
        ly as u64
    } else {
        lx as u64
    };
    proof {
        assert((hi - lo) * 1000000 < 1000000 * (hi + 100000)) by (nonlinear_arith)
            requires
                0 <= lo <= hi,
        ;
        crate::hsv::lemma_div_le((hi - lo) * 1000000, hi as int + 100000, 999999);
    }
    (((hi - lo) * 1000000) / (hi + 100000)) as u32
}

/// The contrast of a color against its own inversion.
pub fn contrast_with_inverted(color: &ColorRGB) -> (contrast: u32)
    ensures
        contrast as int == contrast_spec(*color, flip_spec(*color)),
        contrast < 1000000,
{
    let inv = color.flip_rgb();
    get_contrast(color, &inv)
}

} // verus!
