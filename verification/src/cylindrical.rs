//! Cylindrical color spaces: HSV and HSL.
//!
//! Both are fixed reparameterizations of the sRGB cube (Bt.709 primaries,
//! sRGB transfer, D65 whitepoint, SDR luminance): hue as a turn in [0, 1),
//! saturation and value or lightness in [0, 1]. Inputs outside the cube are
//! clamped onto it before the transform.

use vstd::prelude::*;

use crate::fixed::{
    fx_add, fx_clamp, fx_clamp_s, fx_div, fx_div_s, fx_mul, fx_mul_s, fx_ok, fx_sat_s, fx_sub,
    lemma_mul_s_bounds, FX_HALF, FX_ONE,
};
use crate::matrix::{sample_ok, Sample};

verus! {

/// 2 in Q32.32.
pub const HSX_TWO: i64 = 8589934592;

/// 4 in Q32.32.
pub const HSX_FOUR: i64 = 17179869184;

/// 6 in Q32.32.
pub const HSX_SIX: i64 = 25769803776;

/// The hue of an RGB triple as a turn in [0, 1), from the maximum channel
/// `mx` and the chroma `d = mx - mn`, both already computed. Meaningful for
/// `d > 0`.
pub open spec fn hue_s(r: int, g: int, b: int, mx: int, d: int) -> int {
    if mx == r {
        let t = fx_div_s(fx_sat_s(g - b), d);
        let t = if t < 0 {
            fx_sat_s(t + (HSX_SIX as int))
        } else {
            t
        };
        fx_div_s(t, HSX_SIX as int)
    } else if mx == g {
        fx_div_s(fx_sat_s(fx_div_s(fx_sat_s(b - r), d) + (HSX_TWO as int)), HSX_SIX as int)
    } else {
        fx_div_s(fx_sat_s(fx_div_s(fx_sat_s(r - g), d) + (HSX_FOUR as int)), HSX_SIX as int)
    }
}

/// The largest of three channels, preferring the earlier on ties.
pub open spec fn max3_s(r: int, g: int, b: int) -> int {
    if r >= g && r >= b {
        r
    } else if g >= b {
        g
    } else {
        b
    }
}

/// The smallest of three channels, preferring the earlier on ties.
pub open spec fn min3_s(r: int, g: int, b: int) -> int {
    if r <= g && r <= b {
        r
    } else if g <= b {
        g
    } else {
        b
    }
}

/// Gamma-encoded sRGB to HSV: value is the maximum channel, saturation the
/// chroma relative to it, hue the sector angle. Gray has hue and saturation
/// zero.
pub open spec fn rgb_to_hsv_s(v: Sample) -> Sample {
    let r = v.c0 as int;
    let g = v.c1 as int;
    let b = v.c2 as int;
    let mx = max3_s(r, g, b);
    let mn = min3_s(r, g, b);
    let d = fx_sat_s(mx - mn);
    let sat = if mx <= 0 {
        0
    } else {
        fx_div_s(d, mx)
    };
    let h = if d == 0 {
        0
    } else {
        hue_s(r, g, b, mx, d)
    };
    Sample { c0: h as i64, c1: sat as i64, c2: mx as i64 }
}

/// Gamma-encoded sRGB to HSL: lightness is the midpoint of the extreme
/// channels, saturation the chroma relative to the distance from black or
/// white, hue the sector angle.
pub open spec fn rgb_to_hsl_s(v: Sample) -> Sample {
    let r = v.c0 as int;
    let g = v.c1 as int;
    let b = v.c2 as int;
    let mx = max3_s(r, g, b);
    let mn = min3_s(r, g, b);
    let d = fx_sat_s(mx - mn);
    let l = fx_mul_s(FX_HALF as int, fx_sat_s(mx + mn));
    let two_l = fx_sat_s(fx_mul_s(HSX_TWO as int, l) - (FX_ONE as int));
    let den = if two_l < 0 {
        fx_sat_s((FX_ONE as int) + two_l)
    } else {
        fx_sat_s((FX_ONE as int) - two_l)
    };
    let sat = if den <= 0 || d == 0 {
        0
    } else {
        fx_div_s(d, den)
    };
    let h = if d == 0 {
        0
    } else {
        hue_s(r, g, b, mx, d)
    };
    Sample { c0: h as i64, c1: sat as i64, c2: l as i64 }
}

/// The hue sector and its fractional part: `(i, f)` with `6 h = i + f`, the
/// sector index wrapped into 0..=5.
pub open spec fn hue_sector_s(h: int) -> (int, int) {
    let h6 = fx_mul_s(HSX_SIX as int, h);
    let i = h6 / (FX_ONE as int);
    let i = if i > 6 {
        6
    } else {
        i
    };
    let f = fx_sat_s(h6 - i * (FX_ONE as int));
    let i = if i >= 6 {
        0
    } else {
        i
    };
    (i, f)
}

/// HSV to gamma-encoded sRGB, after clamping the coordinates onto the
/// cylinder.
pub open spec fn hsv_to_rgb_s(v: Sample) -> Sample {
    let h = fx_clamp_s(v.c0 as int, 0, FX_ONE as int);
    let s = fx_clamp_s(v.c1 as int, 0, FX_ONE as int);
    let vv = fx_clamp_s(v.c2 as int, 0, FX_ONE as int);
    let (i, f) = hue_sector_s(h);
    let p = fx_mul_s(vv, fx_sat_s((FX_ONE as int) - s));
    let q = fx_mul_s(vv, fx_sat_s((FX_ONE as int) - fx_mul_s(f, s)));
    let t = fx_mul_s(vv, fx_sat_s((FX_ONE as int) - fx_mul_s(fx_sat_s((FX_ONE as int) - f), s)));
    if i == 0 {
        Sample { c0: vv as i64, c1: t as i64, c2: p as i64 }
    } else if i == 1 {
        Sample { c0: q as i64, c1: vv as i64, c2: p as i64 }
    } else if i == 2 {
        Sample { c0: p as i64, c1: vv as i64, c2: t as i64 }
    } else if i == 3 {
        Sample { c0: p as i64, c1: q as i64, c2: vv as i64 }
    } else if i == 4 {
        Sample { c0: t as i64, c1: p as i64, c2: vv as i64 }
    } else {
        Sample { c0: vv as i64, c1: p as i64, c2: q as i64 }
    }
}

/// HSL to gamma-encoded sRGB, after clamping the coordinates onto the
/// cylinder.
pub open spec fn hsl_to_rgb_s(v: Sample) -> Sample {
    let h = fx_clamp_s(v.c0 as int, 0, FX_ONE as int);
    let s = fx_clamp_s(v.c1 as int, 0, FX_ONE as int);
    let l = fx_clamp_s(v.c2 as int, 0, FX_ONE as int);
    let (i, f) = hue_sector_s(h);
    let two_l = fx_sat_s(fx_mul_s(HSX_TWO as int, l) - (FX_ONE as int));
    let two_l = if two_l < 0 {
        -two_l
    } else {
        two_l
    };
    let c = fx_mul_s(fx_sat_s((FX_ONE as int) - two_l), s);
    let x = if i % 2 == 0 {
        fx_mul_s(c, f)
    } else {
        fx_mul_s(c, fx_sat_s((FX_ONE as int) - f))
    };
    let m = fx_sat_s(l - fx_mul_s(FX_HALF as int, c));
    let (r, g, b): (int, int, int) = if i == 0 {
        (c, x, 0)
    } else if i == 1 {
        (x, c, 0)
    } else if i == 2 {
        (0, c, x)
    } else if i == 3 {
        (0, x, c)
    } else if i == 4 {
        (x, 0, c)
    } else {
        (c, 0, x)
    };
    Sample {
        c0: fx_sat_s(r + m) as i64,
        c1: fx_sat_s(g + m) as i64,
        c2: fx_sat_s(b + m) as i64,
    }
}

/// The hue of an RGB triple, for chroma `d > 0`.
fn hue(r: i64, g: i64, b: i64, mx: i64, d: i64) -> (res: i64)
    requires
        fx_ok(r),
        fx_ok(g),
        fx_ok(b),
        fx_ok(mx),
        fx_ok(d),
        d != 0,
    ensures
        res == hue_s(r as int, g as int, b as int, mx as int, d as int),
        fx_ok(res),
{
    if mx == r {
        let t: i64 = fx_div(fx_sub(g, b), d);
        let t: i64 = if t < 0 {
            fx_add(t, HSX_SIX)
        } else {
            t
        };
        fx_div(t, HSX_SIX)
    } else if mx == g {
        fx_div(fx_add(fx_div(fx_sub(b, r), d), HSX_TWO), HSX_SIX)
    } else {
        fx_div(fx_add(fx_div(fx_sub(r, g), d), HSX_FOUR), HSX_SIX)
    }
}

/// The largest of three channels.
fn max3(r: i64, g: i64, b: i64) -> (res: i64)
    ensures
        res == max3_s(r as int, g as int, b as int),
{
    if r >= g && r >= b {
        r
    } else if g >= b {
        g
    } else {
        b
    }
}

/// The smallest of three channels.
fn min3(r: i64, g: i64, b: i64) -> (res: i64)
    ensures
        res == min3_s(r as int, g as int, b as int),
{
    if r <= g && r <= b {
        r
    } else if g <= b {
        g
    } else {
        b
    }
}

/// Gamma-encoded sRGB to HSV.
pub fn rgb_to_hsv(v: &Sample) -> (res: Sample)
    requires
        sample_ok(*v),
    ensures
        res == rgb_to_hsv_s(*v),
        sample_ok(res),
{
    let mx: i64 = max3(v.c0, v.c1, v.c2);
    let mn: i64 = min3(v.c0, v.c1, v.c2);
    let d: i64 = fx_sub(mx, mn);
    let sat: i64 = if mx <= 0 {
        0
    } else {
        fx_div(d, mx)
    };
    let h: i64 = if d == 0 {
        0
    } else {
        hue(v.c0, v.c1, v.c2, mx, d)
    };
    Sample { c0: h, c1: sat, c2: mx }
}

/// Gamma-encoded sRGB to HSL.
pub fn rgb_to_hsl(v: &Sample) -> (res: Sample)
    requires
        sample_ok(*v),
    ensures
        res == rgb_to_hsl_s(*v),
        sample_ok(res),
{
    let mx: i64 = max3(v.c0, v.c1, v.c2);
    let mn: i64 = min3(v.c0, v.c1, v.c2);
    let d: i64 = fx_sub(mx, mn);
    let l: i64 = fx_mul(FX_HALF, fx_add(mx, mn));
    let two_l: i64 = fx_sub(fx_mul(HSX_TWO, l), FX_ONE);
    let den: i64 = if two_l < 0 {
        fx_add(FX_ONE, two_l)
    } else {
        fx_sub(FX_ONE, two_l)
    };
    let sat: i64 = if den <= 0 || d == 0 {
        0
    } else {
        fx_div(d, den)
    };
    let h: i64 = if d == 0 {
        0
    } else {
        hue(v.c0, v.c1, v.c2, mx, d)
    };
    Sample { c0: h, c1: sat, c2: l }
}

/// The hue sector and its fractional part.
fn hue_sector(h: i64) -> (res: (i64, i64))
    requires
        0 <= h <= FX_ONE,
    ensures
        (res.0 as int, res.1 as int) == hue_sector_s(h as int),
        0 <= res.0 <= 5,
        fx_ok(res.1),
{
    let h6: i64 = fx_mul(HSX_SIX, h);
    proof {
        lemma_mul_s_bounds(HSX_SIX as int, h as int);
    }
    let i: i64 = h6 / FX_ONE;
    let i: i64 = if i > 6 {
        6
    } else {
        i
    };
    let f: i64 = fx_sub(h6, i * FX_ONE);
    let i: i64 = if i >= 6 {
        0
    } else {
        i
    };
    (i, f)
}

/// HSV to gamma-encoded sRGB.
pub fn hsv_to_rgb(v: &Sample) -> (res: Sample)
    requires
        sample_ok(*v),
    ensures
        res == hsv_to_rgb_s(*v),
        sample_ok(res),
{
    let h: i64 = fx_clamp(v.c0, 0, FX_ONE);
    let s: i64 = fx_clamp(v.c1, 0, FX_ONE);
    let vv: i64 = fx_clamp(v.c2, 0, FX_ONE);
    let (i, f): (i64, i64) = hue_sector(h);
    let p: i64 = fx_mul(vv, fx_sub(FX_ONE, s));
    let q: i64 = fx_mul(vv, fx_sub(FX_ONE, fx_mul(f, s)));
    let t: i64 = fx_mul(vv, fx_sub(FX_ONE, fx_mul(fx_sub(FX_ONE, f), s)));
    if i == 0 {
        Sample { c0: vv, c1: t, c2: p }
    } else if i == 1 {
        Sample { c0: q, c1: vv, c2: p }
    } else if i == 2 {
        Sample { c0: p, c1: vv, c2: t }
    } else if i == 3 {
        Sample { c0: p, c1: q, c2: vv }
    } else if i == 4 {
        Sample { c0: t, c1: p, c2: vv }
    } else {
        Sample { c0: vv, c1: p, c2: q }
    }
}

/// HSL to gamma-encoded sRGB.
pub fn hsl_to_rgb(v: &Sample) -> (res: Sample)
    requires
        sample_ok(*v),
    ensures
        res == hsl_to_rgb_s(*v),
        sample_ok(res),
{
    let h: i64 = fx_clamp(v.c0, 0, FX_ONE);
    let s: i64 = fx_clamp(v.c1, 0, FX_ONE);
    let l: i64 = fx_clamp(v.c2, 0, FX_ONE);
    let (i, f): (i64, i64) = hue_sector(h);
    let two_l: i64 = fx_sub(fx_mul(HSX_TWO, l), FX_ONE);
    let two_l: i64 = if two_l < 0 {
        -two_l
    } else {
        two_l
    };
    let c: i64 = fx_mul(fx_sub(FX_ONE, two_l), s);
    let x: i64 = if i % 2 == 0 {
        fx_mul(c, f)
    } else {
        fx_mul(c, fx_sub(FX_ONE, f))
    };
    let m: i64 = fx_sub(l, fx_mul(FX_HALF, c));
    let (r, g, b): (i64, i64, i64) = if i == 0 {
        (c, x, 0)
    } else if i == 1 {
        (x, c, 0)
    } else if i == 2 {
        (0, c, x)
    } else if i == 3 {
        (0, x, c)
    } else if i == 4 {
        (x, 0, c)
    } else {
        (c, 0, x)
    };
    Sample { c0: fx_add(r, m), c1: fx_add(g, m), c2: fx_add(b, m) }
}

} // verus!
