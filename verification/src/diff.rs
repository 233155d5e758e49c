//! YUV differencing: the luma/chroma schemes that turn gamma-encoded R'G'B'
//! into (Y, U, V) triples and back.
//!
//! Every scheme except `YCoCg` is a luma weighting (kr, kb) with chroma scale
//! factors (cu, cv): `Y = kr R + kg G + kb B`, `U = cu (B - Y)`,
//! `V = cv (R - Y)`. Chroma channels are centered at zero. Quantized variants
//! add the affine headroom/footroom rescale of 8-bit digital video after the
//! matrix and clamp to the legal ranges; full-swing variants clamp to the
//! nominal ranges without an affine step; the remaining variants are analog
//! and unclamped.

use vstd::prelude::*;

use crate::colorspace::Differencing;
use crate::fixed::{
    fx_add, fx_clamp, fx_clamp_s, fx_div, fx_div_s, fx_mul, fx_mul_s, fx_ok, fx_sat_s, fx_sub,
    FX_HALF, FX_ONE,
};
use crate::matrix::{sample_ok, Sample};

verus! {

/// 0.25 in Q32.32.
pub const FX_QUARTER: i64 = 1073741824;

/// 16/255 in Q32.32: the digital footroom of both luma and chroma.
pub const Q_FOOT: i64 = 269488144;

/// 219/255 in Q32.32: the scale of quantized luma.
pub const Q_YSCALE: i64 = 3688618972;

/// 235/255 in Q32.32: the legal ceiling of quantized luma.
pub const Q_YMAX: i64 = 3958107116;

/// 128/255 in Q32.32: the offset of quantized chroma.
pub const Q_CMID: i64 = 2155905153;

/// 224/255 in Q32.32: the scale of quantized chroma.
pub const Q_CSCALE: i64 = 3772834017;

/// 240/255 in Q32.32: the legal ceiling of quantized chroma.
pub const Q_CMAX: i64 = 4042322161;

/// 0.299 in Q32.32: the Bt.601 red luma weight.
pub const KR_601: i64 = 1284195222;

/// 0.114 in Q32.32: the Bt.601 blue luma weight.
pub const KB_601: i64 = 489626272;

/// 0.2126 in Q32.32: the Bt.709 red luma weight.
pub const KR_709: i64 = 913110047;

/// 0.0722 in Q32.32: the Bt.709 blue luma weight.
pub const KB_709: i64 = 310096639;

/// 0.2627 in Q32.32: the Bt.2020/Bt.2100 red luma weight.
pub const KR_2020: i64 = 1128287909;

/// 0.0593 in Q32.32: the Bt.2020/Bt.2100 blue luma weight.
pub const KB_2020: i64 = 254691561;

/// 0.493 in Q32.32: the published Bt.470 M/PAL U scale.
pub const PAL_CU: i64 = 2117418877;

/// 0.877 in Q32.32: the published Bt.470 M/PAL V scale.
pub const PAL_CV: i64 = 3766686319;

/// 0.436 in Q32.32: the Bt.470 M/PAL U excursion its scale derives from.
pub const PALP_CU_NUM: i64 = 1872605741;

/// 0.886 in Q32.32: 1 - kb for the Bt.601 luma weights.
pub const PALP_CU_DEN: i64 = 3805341024;

/// 0.615 in Q32.32: the Bt.470 M/PAL V excursion its scale derives from.
pub const PALP_CV_NUM: i64 = 2641404887;

/// 0.701 in Q32.32: 1 - kr for the Bt.601 luma weights.
pub const PALP_CV_DEN: i64 = 3010772074;

/// 3.059 in Q32.32: the SECAM Db scale.
pub const YDBDR_CU: i64 = 13138304958;

/// -2.169 in Q32.32: the SECAM Dr scale.
pub const YDBDR_CV: i64 = -9315784065;

/// The (kr, kb) luma weights of a differencing scheme. `YCoCg` has no luma
/// weighting and is handled separately.
pub open spec fn diff_kr_kb_s(d: Differencing) -> (int, int) {
    match d {
        Differencing::Bt709 | Differencing::Bt709Quantized | Differencing::Bt709FullSwing => (
            KR_709 as int,
            KB_709 as int,
        ),
        Differencing::Bt2020 | Differencing::Bt2100 => (KR_2020 as int, KB_2020 as int),
        _ => (KR_601 as int, KB_601 as int),
    }
}

/// The (cu, cv) chroma scale factors of a differencing scheme. The Bt.601,
/// Bt.709 and Bt.2020 families normalize chroma excursion to [-1/2, 1/2]; the
/// analog PAL and SECAM schemes use their published factors, with the
/// "precise" PAL variant deriving them from the exact excursions.
pub open spec fn diff_cu_cv_s(d: Differencing) -> (int, int) {
    match d {
        Differencing::Bt407MPal => (PAL_CU as int, PAL_CV as int),
        Differencing::Bt407MPalPrecise => (
            fx_div_s(PALP_CU_NUM as int, PALP_CU_DEN as int),
            fx_div_s(PALP_CV_NUM as int, PALP_CV_DEN as int),
        ),
        Differencing::YDbDr => (YDBDR_CU as int, YDBDR_CV as int),
        _ => {
            let (kr, kb) = diff_kr_kb_s(d);
            (
                fx_div_s(FX_HALF as int, fx_sat_s((FX_ONE as int) - kb)),
                fx_div_s(FX_HALF as int, fx_sat_s((FX_ONE as int) - kr)),
            )
        },
    }
}

/// Forward luma/chroma differencing of gamma-encoded R'G'B' by weights and
/// scales: `Y = kr R + kg G + kb B`, `U = cu (B - Y)`, `V = cv (R - Y)`.
pub open spec fn diff_fwd_s(kr: int, kb: int, cu: int, cv: int, rgb: Sample) -> Sample {
    let kg = fx_sat_s(fx_sat_s((FX_ONE as int) - kr) - kb);
    let y = fx_sat_s(
        fx_sat_s(fx_mul_s(kr, rgb.c0 as int) + fx_mul_s(kg, rgb.c1 as int)) + fx_mul_s(
            kb,
            rgb.c2 as int,
        ),
    );
    Sample {
        c0: y as i64,
        c1: fx_mul_s(cu, fx_sat_s((rgb.c2 as int) - y)) as i64,
        c2: fx_mul_s(cv, fx_sat_s((rgb.c0 as int) - y)) as i64,
    }
}

/// Inverse luma/chroma differencing: recovers R' and B' from the scaled
/// chroma, then G' from the luma equation.
pub open spec fn diff_inv_s(kr: int, kb: int, cu: int, cv: int, yuv: Sample) -> Sample {
    let kg = fx_sat_s(fx_sat_s((FX_ONE as int) - kr) - kb);
    let r = fx_sat_s((yuv.c0 as int) + fx_div_s(yuv.c2 as int, cv));
    let b = fx_sat_s((yuv.c0 as int) + fx_div_s(yuv.c1 as int, cu));
    let g = fx_div_s(
        fx_sat_s(fx_sat_s((yuv.c0 as int) - fx_mul_s(kr, r)) - fx_mul_s(kb, b)),
        kg,
    );
    Sample { c0: r as i64, c1: g as i64, c2: b as i64 }
}

/// Forward YCoCg differencing: `Y = R/4 + G/2 + B/4`, `Co = R/2 - B/2`,
/// `Cg = G/2 - R/4 - B/4`.
pub open spec fn ycocg_fwd_s(rgb: Sample) -> Sample {
    let qr = fx_mul_s(FX_QUARTER as int, rgb.c0 as int);
    let hg = fx_mul_s(FX_HALF as int, rgb.c1 as int);
    let qb = fx_mul_s(FX_QUARTER as int, rgb.c2 as int);
    Sample {
        c0: fx_sat_s(fx_sat_s(qr + hg) + qb) as i64,
        c1: fx_sat_s(
            fx_mul_s(FX_HALF as int, rgb.c0 as int) - fx_mul_s(FX_HALF as int, rgb.c2 as int),
        ) as i64,
        c2: fx_sat_s(hg - fx_sat_s(qr + qb)) as i64,
    }
}

/// Inverse YCoCg differencing: `R = Y + Co - Cg`, `G = Y + Cg`,
/// `B = Y - Co - Cg`.
pub open spec fn ycocg_inv_s(yuv: Sample) -> Sample {
    Sample {
        c0: fx_sat_s(fx_sat_s((yuv.c0 as int) + (yuv.c1 as int)) - (yuv.c2 as int)) as i64,
        c1: fx_sat_s((yuv.c0 as int) + (yuv.c2 as int)) as i64,
        c2: fx_sat_s(fx_sat_s((yuv.c0 as int) - (yuv.c1 as int)) - (yuv.c2 as int)) as i64,
    }
}

/// The affine headroom/footroom rescale of 8-bit digital video, clamped to
/// the legal ranges: luma to [16/255, 235/255], chroma offset to 128/255 and
/// clamped to [16/255, 240/255].
pub open spec fn quantize_s(yuv: Sample) -> Sample {
    Sample {
        c0: fx_clamp_s(
            fx_sat_s((Q_FOOT as int) + fx_mul_s(Q_YSCALE as int, yuv.c0 as int)),
            Q_FOOT as int,
            Q_YMAX as int,
        ) as i64,
        c1: fx_clamp_s(
            fx_sat_s((Q_CMID as int) + fx_mul_s(Q_CSCALE as int, yuv.c1 as int)),
            Q_FOOT as int,
            Q_CMAX as int,
        ) as i64,
        c2: fx_clamp_s(
            fx_sat_s((Q_CMID as int) + fx_mul_s(Q_CSCALE as int, yuv.c2 as int)),
            Q_FOOT as int,
            Q_CMAX as int,
        ) as i64,
    }
}

/// The inverse of the quantized affine rescale, applied before the inverse
/// matrix.
pub open spec fn dequantize_s(yuv: Sample) -> Sample {
    Sample {
        c0: fx_div_s(fx_sat_s((yuv.c0 as int) - (Q_FOOT as int)), Q_YSCALE as int) as i64,
        c1: fx_div_s(fx_sat_s((yuv.c1 as int) - (Q_CMID as int)), Q_CSCALE as int) as i64,
        c2: fx_div_s(fx_sat_s((yuv.c2 as int) - (Q_CMID as int)), Q_CSCALE as int) as i64,
    }
}

/// Full-swing clamping: luma to [0, 1], centered chroma to [-1/2, 1/2].
pub open spec fn fullswing_s(yuv: Sample) -> Sample {
    Sample {
        c0: fx_clamp_s(yuv.c0 as int, 0, FX_ONE as int) as i64,
        c1: fx_clamp_s(yuv.c1 as int, -(FX_HALF as int), FX_HALF as int) as i64,
        c2: fx_clamp_s(yuv.c2 as int, -(FX_HALF as int), FX_HALF as int) as i64,
    }
}

/// Whether this scheme applies the quantized affine rescale.
pub open spec fn diff_is_quantized_s(d: Differencing) -> bool {
    d == Differencing::Bt601Quantized || d == Differencing::Bt709Quantized
}

/// Whether this scheme clamps to nominal full-swing ranges.
pub open spec fn diff_is_fullswing_s(d: Differencing) -> bool {
    d == Differencing::Bt601FullSwing || d == Differencing::Bt709FullSwing
}

/// Gamma-encoded R'G'B' to (Y, U, V) under a differencing scheme.
pub open spec fn rgb_to_yuv_s(d: Differencing, rgb: Sample) -> Sample {
    if d == Differencing::YCoCg {
        ycocg_fwd_s(rgb)
    } else {
        let (kr, kb) = diff_kr_kb_s(d);
        let (cu, cv) = diff_cu_cv_s(d);
        let yuv = diff_fwd_s(kr, kb, cu, cv, rgb);
        if diff_is_quantized_s(d) {
            quantize_s(yuv)
        } else if diff_is_fullswing_s(d) {
            fullswing_s(yuv)
        } else {
            yuv
        }
    }
}

/// (Y, U, V) to gamma-encoded R'G'B' under a differencing scheme: the
/// de-quantization affine step first for quantized variants, then the inverse
/// matrix.
pub open spec fn yuv_to_rgb_s(d: Differencing, yuv: Sample) -> Sample {
    if d == Differencing::YCoCg {
        ycocg_inv_s(yuv)
    } else {
        let (kr, kb) = diff_kr_kb_s(d);
        let (cu, cv) = diff_cu_cv_s(d);
        let yuv1 = if diff_is_quantized_s(d) {
            dequantize_s(yuv)
        } else {
            yuv
        };
        diff_inv_s(kr, kb, cu, cv, yuv1)
    }
}

/// A quantized differencing scheme lands in its legal range: luma within
/// [16/255, 235/255] and chroma within [16/255, 240/255], whatever the input.
pub proof fn lemma_quantized_range(d: Differencing, rgb: Sample)
    requires
        diff_is_quantized_s(d),
    ensures
        Q_FOOT <= rgb_to_yuv_s(d, rgb).c0 <= Q_YMAX,
        Q_FOOT <= rgb_to_yuv_s(d, rgb).c1 <= Q_CMAX,
        Q_FOOT <= rgb_to_yuv_s(d, rgb).c2 <= Q_CMAX,
{
}

/// A full-swing differencing scheme lands in its nominal range: luma within
/// [0, 1] and centered chroma within [-1/2, 1/2], whatever the input.
pub proof fn lemma_fullswing_range(d: Differencing, rgb: Sample)
    requires
        diff_is_fullswing_s(d),
    ensures
        0 <= rgb_to_yuv_s(d, rgb).c0 <= FX_ONE,
        -FX_HALF <= rgb_to_yuv_s(d, rgb).c1 <= FX_HALF,
        -FX_HALF <= rgb_to_yuv_s(d, rgb).c2 <= FX_HALF,
{
}

/// The (kr, kb) luma weights of a differencing scheme.
fn diff_kr_kb(d: Differencing) -> (r: (i64, i64))
    ensures
        (r.0 as int, r.1 as int) == diff_kr_kb_s(d),
        0 < r.0 < FX_ONE,
        0 < r.1 < FX_ONE,
        fx_sat_s(fx_sat_s((FX_ONE as int) - r.0) - r.1) > 0,
{
    match d {
        Differencing::Bt709 | Differencing::Bt709Quantized | Differencing::Bt709FullSwing => (
            KR_709,
            KB_709,
        ),
        Differencing::Bt2020 | Differencing::Bt2100 => (KR_2020, KB_2020),
        _ => (KR_601, KB_601),
    }
}

/// The (cu, cv) chroma scale factors of a differencing scheme.
fn diff_cu_cv(d: Differencing) -> (r: (i64, i64))
    ensures
        (r.0 as int, r.1 as int) == diff_cu_cv_s(d),
        r.0 != 0,
        r.1 != 0,
        fx_ok(r.0),
        fx_ok(r.1),
{
    match d {
        Differencing::Bt407MPal => (PAL_CU, PAL_CV),
        Differencing::YDbDr => (YDBDR_CU, YDBDR_CV),
        Differencing::Bt407MPalPrecise => {
            proof {
                crate::fixed::lemma_div_s_pos(PALP_CU_NUM as int, PALP_CU_DEN as int);
                crate::fixed::lemma_div_s_pos(PALP_CV_NUM as int, PALP_CV_DEN as int);
            }
            (fx_div(PALP_CU_NUM, PALP_CU_DEN), fx_div(PALP_CV_NUM, PALP_CV_DEN))
        },
        _ => {
            let (kr, kb): (i64, i64) = diff_kr_kb(d);
            proof {
                crate::fixed::lemma_div_s_pos(FX_HALF as int, (FX_ONE - kb) as int);
                crate::fixed::lemma_div_s_pos(FX_HALF as int, (FX_ONE - kr) as int);
            }
            (fx_div(FX_HALF, fx_sub(FX_ONE, kb)), fx_div(FX_HALF, fx_sub(FX_ONE, kr)))
        },
    }
}

/// Gamma-encoded R'G'B' to (Y, U, V) under a differencing scheme.
pub fn rgb_to_yuv(d: Differencing, rgb: &Sample) -> (r: Sample)
    requires
        sample_ok(*rgb),
    ensures
        r == rgb_to_yuv_s(d, *rgb),
        sample_ok(r),
{
    if matches!(d, Differencing::YCoCg) {
        let qr: i64 = fx_mul(FX_QUARTER, rgb.c0);
        let hg: i64 = fx_mul(FX_HALF, rgb.c1);
        let qb: i64 = fx_mul(FX_QUARTER, rgb.c2);
        proof {
            assert(d == Differencing::YCoCg);
        }
        Sample {
            c0: fx_add(fx_add(qr, hg), qb),
            c1: fx_sub(fx_mul(FX_HALF, rgb.c0), fx_mul(FX_HALF, rgb.c2)),
            c2: fx_sub(hg, fx_add(qr, qb)),
        }
    } else {
        let (kr, kb): (i64, i64) = diff_kr_kb(d);
        let (cu, cv): (i64, i64) = diff_cu_cv(d);
        let kg: i64 = fx_sub(fx_sub(FX_ONE, kr), kb);
        let y: i64 = fx_add(fx_add(fx_mul(kr, rgb.c0), fx_mul(kg, rgb.c1)), fx_mul(kb, rgb.c2));
        let yuv: Sample = Sample {
            c0: y,
            c1: fx_mul(cu, fx_sub(rgb.c2, y)),
            c2: fx_mul(cv, fx_sub(rgb.c0, y)),
        };
        if matches!(d, Differencing::Bt601Quantized | Differencing::Bt709Quantized) {
            Sample {
                c0: fx_clamp(fx_add(Q_FOOT, fx_mul(Q_YSCALE, yuv.c0)), Q_FOOT, Q_YMAX),
                c1: fx_clamp(fx_add(Q_CMID, fx_mul(Q_CSCALE, yuv.c1)), Q_FOOT, Q_CMAX),
                c2: fx_clamp(fx_add(Q_CMID, fx_mul(Q_CSCALE, yuv.c2)), Q_FOOT, Q_CMAX),
            }
        } else if matches!(d, Differencing::Bt601FullSwing | Differencing::Bt709FullSwing) {
            Sample {
                c0: fx_clamp(yuv.c0, 0, FX_ONE),
                c1: fx_clamp(yuv.c1, -FX_HALF, FX_HALF),
                c2: fx_clamp(yuv.c2, -FX_HALF, FX_HALF),
            }
        } else {
            yuv
        }
    }
}

/// (Y, U, V) to gamma-encoded R'G'B' under a differencing scheme.
pub fn yuv_to_rgb(d: Differencing, yuv: &Sample) -> (r: Sample)
    requires
        sample_ok(*yuv),
    ensures
        r == yuv_to_rgb_s(d, *yuv),
        sample_ok(r),
{
    if matches!(d, Differencing::YCoCg) {
        proof {
            assert(d == Differencing::YCoCg);
        }
        Sample {
            c0: fx_sub(fx_add(yuv.c0, yuv.c1), yuv.c2),
            c1: fx_add(yuv.c0, yuv.c2),
            c2: fx_sub(fx_sub(yuv.c0, yuv.c1), yuv.c2),
        }
    } else {
        let (kr, kb): (i64, i64) = diff_kr_kb(d);
        let (cu, cv): (i64, i64) = diff_cu_cv(d);
        let kg: i64 = fx_sub(fx_sub(FX_ONE, kr), kb);
        let yuv1: Sample = if matches!(
            d,
            Differencing::Bt601Quantized | Differencing::Bt709Quantized,
        ) {
            Sample {
                c0: fx_div(fx_sub(yuv.c0, Q_FOOT), Q_YSCALE),
                c1: fx_div(fx_sub(yuv.c1, Q_CMID), Q_CSCALE),
                c2: fx_div(fx_sub(yuv.c2, Q_CMID), Q_CSCALE),
            }
        } else {
            *yuv
        };
        let r: i64 = fx_add(yuv1.c0, fx_div(yuv1.c2, cv));
        let b: i64 = fx_add(yuv1.c0, fx_div(yuv1.c1, cu));
        let g: i64 = fx_div(fx_sub(fx_sub(yuv1.c0, fx_mul(kr, r)), fx_mul(kb, b)), kg);
        Sample { c0: r, c1: g, c2: b }
    }
}

} // verus!
