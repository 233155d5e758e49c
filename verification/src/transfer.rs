//! Transfer function engine: per-channel opto-electronic encode (OETF) and
//! electro-optical decode (EOTF) for each supported [`Transfer`].
//!
//! Every supported curve here is a member of one piecewise family: a linear
//! segment below a breakpoint and a scaled power law with offset above it,
//! mirrored onto negative inputs so that scRGB-style samples survive a round
//! trip. The power laws have rational exponents, computed as an n-th
//! fixed-point root followed by an integer power.

use vstd::prelude::*;

use crate::colorspace::Transfer;
use crate::fixed::{
    fx_add, fx_clamp, fx_clamp_s, fx_div, fx_div_s, fx_mul, fx_mul_s, fx_ok, fx_powi, fx_powi_s,
    fx_root, fx_root_s, fx_sat_s, fx_sub, lemma_powi_s_bounds, mag, FX_ONE, FX_SAT,
};

verus! {

/// 0.0031308 in Q32.32: the sRGB encode breakpoint.
pub const SRGB_CUT_ENC: i64 = 13446684;

/// 0.04045 in Q32.32: the sRGB decode breakpoint.
pub const SRGB_CUT_DEC: i64 = 173731427;

/// 12.92 in Q32.32: the sRGB linear-segment slope.
pub const SRGB_SLOPE: i64 = 55490977464;

/// 0.055 in Q32.32: the sRGB power-law offset.
pub const SRGB_ALPHA: i64 = 236223201;

/// 1.055 in Q32.32: the sRGB power-law scale.
pub const SRGB_SCALE: i64 = 4531190497;

/// The Bt.709/Bt.601/Bt.2020 encode breakpoint in Q32.32: the analytically
/// consistent value of the published 0.018, where the linear segment and the
/// power law join continuously.
pub const BT709_CUT_ENC: i64 = 77541204;

/// The Bt.709/Bt.601/Bt.2020 decode breakpoint in Q32.32: 4.5 times the
/// encode breakpoint.
pub const BT709_CUT_DEC: i64 = 348935419;

/// 4.5 in Q32.32: the Bt.709 linear-segment slope.
pub const BT709_SLOPE: i64 = 19327352832;

/// The Bt.709 power-law offset in Q32.32: the analytically consistent value
/// of the published 0.099.
pub const BT709_ALPHA: i64 = 426476624;

/// The Bt.709 power-law scale in Q32.32: one plus the offset.
pub const BT709_SCALE: i64 = 4721443920;

/// The SMPTE-240M encode breakpoint in Q32.32: the analytically consistent
/// value of the published 0.0228.
pub const S240_CUT_ENC: i64 = 98017963;

/// The SMPTE-240M decode breakpoint in Q32.32: 4 times the encode
/// breakpoint.
pub const S240_CUT_DEC: i64 = 392071854;

/// 4.0 in Q32.32: the SMPTE-240M linear-segment slope.
pub const S240_SLOPE: i64 = 17179869184;

/// The SMPTE-240M power-law offset in Q32.32: the analytically consistent
/// value of the published 0.1115.
pub const S240_ALPHA: i64 = 479198933;

/// The SMPTE-240M power-law scale in Q32.32: one plus the offset.
pub const S240_SCALE: i64 = 4774166229;

/// A rational power `x^(p/q)` of a nonnegative fixed-point value: the q-th
/// fixed-point root, raised to the p-th fixed-point power.
pub open spec fn fx_powf_s(x: int, p: nat, q: nat) -> int {
    fx_powi_s(fx_root_s(x, q), p)
}

/// A rational power `x^(p/q)` of a nonnegative fixed-point value.
fn fx_powf(x: i64, p: u32, q: u32) -> (r: i64)
    requires
        0 <= x <= FX_SAT,
        1 <= q,
    ensures
        r == fx_powf_s(x as int, p as nat, q as nat),
        0 <= r <= FX_SAT,
{
    let root: i64 = fx_root(x, q);
    let r: i64 = fx_powi(root, p);
    proof {
        lemma_powi_s_bounds(root as int, p as nat);
    }
    r
}

/// The piecewise encode family: `slope * m` below the breakpoint, otherwise
/// `scale * m^(p/q) - alpha`, mirrored in the sign of `x`.
pub open spec fn gamma_enc_s(
    slope: int,
    scale: int,
    alpha: int,
    cut: int,
    p: nat,
    q: nat,
    x: int,
) -> int {
    let m = mag(x);
    let e = if m < cut {
        fx_mul_s(slope, m)
    } else {
        fx_sat_s(fx_mul_s(scale, fx_powf_s(m, p, q)) - alpha)
    };
    if x < 0 {
        -e
    } else {
        e
    }
}

/// The piecewise decode family: `m / slope` below the breakpoint, otherwise
/// `((m + alpha) / scale)^(p/q)`, mirrored in the sign of `x`.
pub open spec fn gamma_dec_s(
    slope: int,
    scale: int,
    alpha: int,
    cut: int,
    p: nat,
    q: nat,
    x: int,
) -> int {
    let m = mag(x);
    let d = if m < cut {
        fx_div_s(m, slope)
    } else {
        fx_powf_s(fx_div_s(fx_sat_s(m + alpha), scale), p, q)
    };
    if x < 0 {
        -d
    } else {
        d
    }
}

/// The piecewise encode family.
fn gamma_enc(slope: i64, scale: i64, alpha: i64, cut: i64, p: u32, q: u32, x: i64) -> (r: i64)
    requires
        0 < slope <= FX_SAT,
        0 <= scale <= FX_SAT,
        0 <= alpha <= FX_SAT,
        0 <= cut <= FX_SAT,
        1 <= q,
        fx_ok(x),
    ensures
        r == gamma_enc_s(
            slope as int,
            scale as int,
            alpha as int,
            cut as int,
            p as nat,
            q as nat,
            x as int,
        ),
        fx_ok(r),
{
    let m: i64 = if x < 0 {
        -x
    } else {
        x
    };
    let e: i64 = if m < cut {
        fx_mul(slope, m)
    } else {
        fx_sub(fx_mul(scale, fx_powf(m, p, q)), alpha)
    };
    if x < 0 {
        -e
    } else {
        e
    }
}

/// The piecewise decode family.
fn gamma_dec(slope: i64, scale: i64, alpha: i64, cut: i64, p: u32, q: u32, x: i64) -> (r: i64)
    requires
        0 < slope <= FX_SAT,
        0 < scale <= FX_SAT,
        0 <= alpha <= FX_SAT,
        0 <= cut <= FX_SAT,
        1 <= q,
        fx_ok(x),
    ensures
        r == gamma_dec_s(
            slope as int,
            scale as int,
            alpha as int,
            cut as int,
            p as nat,
            q as nat,
            x as int,
        ),
        fx_ok(r),
{
    let m: i64 = if x < 0 {
        -x
    } else {
        x
    };
    let d: i64 = if m < cut {
        fx_div(m, slope)
    } else {
        let t: i64 = fx_div(fx_add(m, alpha), scale);
        proof {
            crate::fixed::lemma_div_s_nonneg(fx_sat_s(m + alpha), scale as int);
        }
        fx_powf(t, p, q)
    };
    if x < 0 {
        -d
    } else {
        d
    }
}

/// Whether this transfer function is implemented. The remaining variants are
/// recognized but deliberately rejected at conversion time.
pub open spec fn transfer_supported_s(t: Transfer) -> bool {
    match t {
        Transfer::Bt709 => true,
        Transfer::Bt470M => true,
        Transfer::Bt601 => true,
        Transfer::Smpte240 => true,
        Transfer::Linear => true,
        Transfer::Srgb => true,
        Transfer::Bt2020_10bit => true,
        _ => false,
    }
}

/// Whether this transfer function is implemented.
pub fn transfer_supported(t: Transfer) -> (r: bool)
    ensures
        r == transfer_supported_s(t),
{
    match t {
        Transfer::Bt709 => true,
        Transfer::Bt470M => true,
        Transfer::Bt601 => true,
        Transfer::Smpte240 => true,
        Transfer::Linear => true,
        Transfer::Srgb => true,
        Transfer::Bt2020_10bit => true,
        _ => false,
    }
}

/// Decode (EOTF): electrical value to linear light, for a supported transfer.
pub open spec fn transfer_decode_s(t: Transfer, x: int) -> int {
    match t {
        Transfer::Linear => x,
        Transfer::Srgb => gamma_dec_s(
            SRGB_SLOPE as int,
            SRGB_SCALE as int,
            SRGB_ALPHA as int,
            SRGB_CUT_DEC as int,
            12,
            5,
            x,
        ),
        Transfer::Bt470M => gamma_dec_s(FX_ONE as int, FX_ONE as int, 0, 0, 11, 5, x),
        Transfer::Smpte240 => gamma_dec_s(
            S240_SLOPE as int,
            S240_SCALE as int,
            S240_ALPHA as int,
            S240_CUT_DEC as int,
            20,
            9,
            x,
        ),
        _ => gamma_dec_s(
            BT709_SLOPE as int,
            BT709_SCALE as int,
            BT709_ALPHA as int,
            BT709_CUT_DEC as int,
            20,
            9,
            x,
        ),
    }
}

/// Encode (OETF): linear light to electrical value, for a supported transfer.
pub open spec fn transfer_encode_s(t: Transfer, x: int) -> int {
    match t {
        Transfer::Linear => x,
        Transfer::Srgb => gamma_enc_s(
            SRGB_SLOPE as int,
            SRGB_SCALE as int,
            SRGB_ALPHA as int,
            SRGB_CUT_ENC as int,
            5,
            12,
            x,
        ),
        Transfer::Bt470M => gamma_enc_s(FX_ONE as int, FX_ONE as int, 0, 0, 5, 11, x),
        Transfer::Smpte240 => gamma_enc_s(
            S240_SLOPE as int,
            S240_SCALE as int,
            S240_ALPHA as int,
            S240_CUT_ENC as int,
            9,
            20,
            x,
        ),
        _ => gamma_enc_s(
            BT709_SLOPE as int,
            BT709_SCALE as int,
            BT709_ALPHA as int,
            BT709_CUT_ENC as int,
            9,
            20,
            x,
        ),
    }
}

/// Decode (EOTF): electrical value to linear light.
pub fn transfer_decode(t: Transfer, x: i64) -> (r: i64)
    requires
        transfer_supported_s(t),
        fx_ok(x),
    ensures
        r == transfer_decode_s(t, x as int),
        fx_ok(r),
{
    match t {
        Transfer::Linear => x,
        Transfer::Srgb => gamma_dec(SRGB_SLOPE, SRGB_SCALE, SRGB_ALPHA, SRGB_CUT_DEC, 12, 5, x),
        Transfer::Bt470M => gamma_dec(FX_ONE, FX_ONE, 0, 0, 11, 5, x),
        Transfer::Smpte240 => gamma_dec(S240_SLOPE, S240_SCALE, S240_ALPHA, S240_CUT_DEC, 20, 9, x),
        _ => gamma_dec(BT709_SLOPE, BT709_SCALE, BT709_ALPHA, BT709_CUT_DEC, 20, 9, x),
    }
}

/// Encode (OETF): linear light to electrical value.
pub fn transfer_encode(t: Transfer, x: i64) -> (r: i64)
    requires
        transfer_supported_s(t),
        fx_ok(x),
    ensures
        r == transfer_encode_s(t, x as int),
        fx_ok(r),
{
    match t {
        Transfer::Linear => x,
        Transfer::Srgb => gamma_enc(SRGB_SLOPE, SRGB_SCALE, SRGB_ALPHA, SRGB_CUT_ENC, 5, 12, x),
        Transfer::Bt470M => gamma_enc(FX_ONE, FX_ONE, 0, 0, 5, 11, x),
        Transfer::Smpte240 => gamma_enc(S240_SLOPE, S240_SCALE, S240_ALPHA, S240_CUT_ENC, 9, 20, x),
        _ => gamma_enc(BT709_SLOPE, BT709_SCALE, BT709_ALPHA, BT709_CUT_ENC, 9, 20, x),
    }
}

/// The rational power of fixed-point zero is zero.
pub proof fn lemma_powf_s_zero(p: nat, q: nat)
    requires
        p >= 1,
    ensures
        fx_powf_s(0, p, q) == 0,
{
    crate::fixed::lemma_powi_s_zero(p);
}

/// Every supported transfer maps zero to zero and mirrors negative inputs:
/// encoding or decoding the negation negates the result. This is what makes
/// the scRGB extension of negative primaries well defined.
pub proof fn lemma_transfer_mirror(t: Transfer, x: int)
    requires
        transfer_supported_s(t),
    ensures
        transfer_encode_s(t, 0) == 0,
        transfer_decode_s(t, 0) == 0,
        transfer_encode_s(t, -x) == -transfer_encode_s(t, x),
        transfer_decode_s(t, -x) == -transfer_decode_s(t, x),
{
    crate::fixed::lemma_mul_s_zero(SRGB_SLOPE as int);
    crate::fixed::lemma_mul_s_zero(BT709_SLOPE as int);
    crate::fixed::lemma_mul_s_zero(S240_SLOPE as int);
    crate::fixed::lemma_mul_s_zero(SRGB_SCALE as int);
    crate::fixed::lemma_mul_s_zero(BT709_SCALE as int);
    crate::fixed::lemma_mul_s_zero(S240_SCALE as int);
    crate::fixed::lemma_mul_s_zero(FX_ONE as int);
    crate::fixed::lemma_div_s_zero(SRGB_SLOPE as int);
    crate::fixed::lemma_div_s_zero(BT709_SLOPE as int);
    crate::fixed::lemma_div_s_zero(S240_SLOPE as int);
    crate::fixed::lemma_div_s_zero(SRGB_SCALE as int);
    crate::fixed::lemma_div_s_zero(BT709_SCALE as int);
    crate::fixed::lemma_div_s_zero(S240_SCALE as int);
    crate::fixed::lemma_div_s_zero(FX_ONE as int);
    lemma_powf_s_zero(12, 5);
    lemma_powf_s_zero(11, 5);
    lemma_powf_s_zero(20, 9);
    lemma_powf_s_zero(5, 12);
    lemma_powf_s_zero(5, 11);
    lemma_powf_s_zero(9, 20);
}

/// Whether encoded output in this transfer is clamped to the nominal [0, 1]
/// range. scRGB-style destinations (`Srgb`, `Linear`) keep negative and
/// greater-than-one values.
pub open spec fn transfer_clamps_s(t: Transfer) -> bool {
    match t {
        Transfer::Srgb => false,
        Transfer::Linear => false,
        _ => true,
    }
}

/// The final clamping policy of a destination transfer, applied after encode.
pub open spec fn encode_clamp_s(t: Transfer, x: int) -> int {
    if transfer_clamps_s(t) {
        fx_clamp_s(x, 0, FX_ONE as int)
    } else {
        x
    }
}

/// A clamping destination transfer emits only nominal-range values.
pub proof fn lemma_encode_clamp_range(t: Transfer, x: int)
    requires
        transfer_clamps_s(t),
    ensures
        0 <= encode_clamp_s(t, x) <= FX_ONE,
{
}

/// The final clamping policy of a destination transfer, applied after encode.
pub fn encode_clamp(t: Transfer, x: i64) -> (r: i64)
    requires
        fx_ok(x),
    ensures
        r == encode_clamp_s(t, x as int),
        fx_ok(r),
{
    match t {
        Transfer::Srgb => x,
        Transfer::Linear => x,
        _ => fx_clamp(x, 0, FX_ONE),
    }
}

} // verus!
