//! Matrix and coefficient resolution: whitepoint tristimulus values, primaries
//! matrices, chromatic adaptation, and luminance scaling.
//!
//! The canonical linear representation of the pipeline is CIE XYZ relative to
//! the D65 whitepoint, scaled so that 1.0 is the SDR reference luminance
//! (100 cd/m²).

use vstd::prelude::*;

use crate::colorspace::{Luminance, Primaries, Whitepoint};
use crate::fixed::{fx_div, fx_div_s, fx_mul, fx_mul_s, fx_ok, fx_sat_s, fx_sub, FX_ONE};
use crate::matrix::{
    mat_identity, mat_identity_s, mat_inv_s, mat_inverse, mat_mul, mat_mul_s, mat_ok, mat_vec,
    mat_vec_s, det_s, sample_ok, Mat3, Sample,
};

verus! {

/// The XYZ tristimulus triple of a standard illuminant, normalized to Y = 1,
/// in Q32.32 (CIE 1931 2° observer).
pub open spec fn whitepoint_xyz_s(w: Whitepoint) -> Sample {
    match w {
        Whitepoint::A => Sample { c0: 4718021575i64, c1: 4294967296i64, c2: 1528364112i64 },
        Whitepoint::B => Sample { c0: 4255109999i64, c1: 4294967296i64, c2: 3660299979i64 },
        Whitepoint::C => Sample { c0: 4212246226i64, c1: 4294967296i64, c2: 5078025733i64 },
        Whitepoint::D50 => Sample { c0: 4141293366i64, c1: 4294967296i64, c2: 3544249962i64 },
        Whitepoint::D55 => Sample { c0: 4109510608i64, c1: 4294967296i64, c2: 3957769414i64 },
        Whitepoint::D65 => Sample { c0: 4082237566i64, c1: 4294967296i64, c2: 4676489241i64 },
        Whitepoint::D75 => Sample { c0: 4079016340i64, c1: 4294967296i64, c2: 5267261992i64 },
        Whitepoint::E => Sample { c0: 4294967296i64, c1: 4294967296i64, c2: 4294967296i64 },
        Whitepoint::F2 => Sample { c0: 4260006262i64, c1: 4294967296i64, c2: 2894507310i64 },
        Whitepoint::F7 => Sample { c0: 4081979868i64, c1: 4294967296i64, c2: 4670648085i64 },
        Whitepoint::F11 => Sample { c0: 4336284881i64, c1: 4294967296i64, c2: 2763811455i64 },
    }
}

/// The XYZ tristimulus triple of a standard illuminant, normalized to Y = 1.
pub fn whitepoint_xyz(w: Whitepoint) -> (r: Sample)
    ensures
        r == whitepoint_xyz_s(w),
        sample_ok(r),
{
    match w {
        Whitepoint::A => Sample { c0: 4718021575i64, c1: 4294967296i64, c2: 1528364112i64 },
        Whitepoint::B => Sample { c0: 4255109999i64, c1: 4294967296i64, c2: 3660299979i64 },
        Whitepoint::C => Sample { c0: 4212246226i64, c1: 4294967296i64, c2: 5078025733i64 },
        Whitepoint::D50 => Sample { c0: 4141293366i64, c1: 4294967296i64, c2: 3544249962i64 },
        Whitepoint::D55 => Sample { c0: 4109510608i64, c1: 4294967296i64, c2: 3957769414i64 },
        Whitepoint::D65 => Sample { c0: 4082237566i64, c1: 4294967296i64, c2: 4676489241i64 },
        Whitepoint::D75 => Sample { c0: 4079016340i64, c1: 4294967296i64, c2: 5267261992i64 },
        Whitepoint::E => Sample { c0: 4294967296i64, c1: 4294967296i64, c2: 4294967296i64 },
        Whitepoint::F2 => Sample { c0: 4260006262i64, c1: 4294967296i64, c2: 2894507310i64 },
        Whitepoint::F7 => Sample { c0: 4081979868i64, c1: 4294967296i64, c2: 4670648085i64 },
        Whitepoint::F11 => Sample { c0: 4336284881i64, c1: 4294967296i64, c2: 2763811455i64 },
    }
}

/// The six CIE chromaticity coordinates (xR, yR, xG, yG, xB, yB) of a gamut's
/// red, green and blue corners, in Q32.32. `Primaries::Xyz` has no
/// chromaticity triangle and is handled separately.
pub open spec fn prim_chroma_s(p: Primaries) -> (int, int, int, int, int, int) {
    match p {
        Primaries::Bt709 => (
            2748779069int,
            1417339208int,
            1288490189int,
            2576980378int,
            644245094int,
            257698038int,
        ),
        Primaries::Bt601_625 => (
            2748779069int,
            1417339208int,
            1245540516int,
            2576980378int,
            644245094int,
            257698038int,
        ),
        Primaries::Bt2020 | Primaries::Bt2100 => (
            3040836846int,
            1254130450int,
            730144440int,
            3423088935int,
            562640716int,
            197568496int,
        ),
        _ => (
            2705829396int,
            1460288881int,
            1331439862int,
            2555505541int,
            665719931int,
            300647711int,
        ),
    }
}

/// One column of the chromaticity matrix: the XYZ direction (x/y, 1,
/// (1 - x - y)/y) of a primary with chromaticity (x, y).
pub open spec fn chroma_col_s(x: int, y: int) -> (int, int, int) {
    (fx_div_s(x, y), FX_ONE as int, fx_div_s(fx_sat_s(fx_sat_s((FX_ONE as int) - x) - y), y))
}

/// The chromaticity matrix of a gamut: one column per primary.
pub open spec fn chroma_mat_s(p: Primaries) -> Mat3 {
    let (xr, yr, xg, yg, xb, yb) = prim_chroma_s(p);
    let (r0, r1, r2) = chroma_col_s(xr, yr);
    let (g0, g1, g2) = chroma_col_s(xg, yg);
    let (b0, b1, b2) = chroma_col_s(xb, yb);
    Mat3 {
        m00: r0 as i64,
        m01: g0 as i64,
        m02: b0 as i64,
        m10: r1 as i64,
        m11: g1 as i64,
        m12: b1 as i64,
        m20: r2 as i64,
        m21: g2 as i64,
        m22: b2 as i64,
    }
}

/// A diagonal matrix.
pub open spec fn mat_diag_s(a: int, b: int, c: int) -> Mat3 {
    Mat3 {
        m00: a as i64,
        m01: 0,
        m02: 0,
        m10: 0,
        m11: b as i64,
        m12: 0,
        m20: 0,
        m21: 0,
        m22: c as i64,
    }
}

/// Scale the columns of `m` by the channels of `s`.
pub open spec fn scale_cols_s(m: Mat3, s: Sample) -> Mat3 {
    Mat3 {
        m00: fx_mul_s(m.m00 as int, s.c0 as int) as i64,
        m01: fx_mul_s(m.m01 as int, s.c1 as int) as i64,
        m02: fx_mul_s(m.m02 as int, s.c2 as int) as i64,
        m10: fx_mul_s(m.m10 as int, s.c0 as int) as i64,
        m11: fx_mul_s(m.m11 as int, s.c1 as int) as i64,
        m12: fx_mul_s(m.m12 as int, s.c2 as int) as i64,
        m20: fx_mul_s(m.m20 as int, s.c0 as int) as i64,
        m21: fx_mul_s(m.m21 as int, s.c1 as int) as i64,
        m22: fx_mul_s(m.m22 as int, s.c2 as int) as i64,
    }
}

/// The linear-RGB-to-XYZ matrix of a (primaries, whitepoint) pair: the
/// chromaticity matrix with each column scaled so that RGB (1, 1, 1) maps to
/// the whitepoint's XYZ. `None` exactly when the fixed-point determinant of
/// the chromaticity matrix vanishes. For `Primaries::Xyz` the channels are
/// already XYZ directions, so the matrix is the diagonal of the whitepoint.
pub open spec fn rgb_to_xyz_s(p: Primaries, w: Whitepoint) -> Option<Mat3> {
    if p == Primaries::Xyz {
        let wp = whitepoint_xyz_s(w);
        Some(mat_diag_s(wp.c0 as int, wp.c1 as int, wp.c2 as int))
    } else {
        let c = chroma_mat_s(p);
        if det_s(c) == 0 {
            None
        } else {
            Some(scale_cols_s(c, mat_vec_s(mat_inv_s(c), whitepoint_xyz_s(w))))
        }
    }
}

/// The linear-RGB-to-XYZ matrix of a (primaries, whitepoint) pair.
pub fn rgb_to_xyz(p: Primaries, w: Whitepoint) -> (r: Option<Mat3>)
    ensures
        r == rgb_to_xyz_s(p, w),
        r is Some ==> mat_ok(r->0),
{
    let wp: Sample = whitepoint_xyz(w);
    match p {
        Primaries::Xyz => Some(
            Mat3 {
                m00: wp.c0,
                m01: 0,
                m02: 0,
                m10: 0,
                m11: wp.c1,
                m12: 0,
                m20: 0,
                m21: 0,
                m22: wp.c2,
            },
        ),
        _ => {
            let (xr, yr, xg, yg, xb, yb): (i64, i64, i64, i64, i64, i64) = match p {
                Primaries::Bt709 => (
                    2748779069i64,
                    1417339208i64,
                    1288490189i64,
                    2576980378i64,
                    644245094i64,
                    257698038i64,
                ),
                Primaries::Bt601_625 => (
                    2748779069i64,
                    1417339208i64,
                    1245540516i64,
                    2576980378i64,
                    644245094i64,
                    257698038i64,
                ),
                Primaries::Bt2020 | Primaries::Bt2100 => (
                    3040836846i64,
                    1254130450i64,
                    730144440i64,
                    3423088935i64,
                    562640716i64,
                    197568496i64,
                ),
                _ => (
                    2705829396i64,
                    1460288881i64,
                    1331439862i64,
                    2555505541i64,
                    665719931i64,
                    300647711i64,
                ),
            };
            let c: Mat3 = Mat3 {
                m00: fx_div(xr, yr),
                m01: fx_div(xg, yg),
                m02: fx_div(xb, yb),
                m10: FX_ONE,
                m11: FX_ONE,
                m12: FX_ONE,
                m20: fx_div(fx_sub(fx_sub(FX_ONE, xr), yr), yr),
                m21: fx_div(fx_sub(fx_sub(FX_ONE, xg), yg), yg),
                m22: fx_div(fx_sub(fx_sub(FX_ONE, xb), yb), yb),
            };
            proof {
                assert(c == chroma_mat_s(p));
            }
            match mat_inverse(&c) {
                None => None,
                Some(ci) => {
                    let s: Sample = mat_vec(&ci, &wp);
                    Some(
                        Mat3 {
                            m00: fx_mul(c.m00, s.c0),
                            m01: fx_mul(c.m01, s.c1),
                            m02: fx_mul(c.m02, s.c2),
                            m10: fx_mul(c.m10, s.c0),
                            m11: fx_mul(c.m11, s.c1),
                            m12: fx_mul(c.m12, s.c2),
                            m20: fx_mul(c.m20, s.c0),
                            m21: fx_mul(c.m21, s.c1),
                            m22: fx_mul(c.m22, s.c2),
                        },
                    )
                },
            }
        },
    }
}

/// The Bradford cone-response matrix.
pub open spec fn bradford_s() -> Mat3 {
    Mat3 {
        m00: 3844425227i64,
        m01: 1144179288i64,
        m02: -693207722i64,
        m10: -3222084465i64,
        m11: 7359426462i64,
        m12: 157625300i64,
        m20: 167074228i64,
        m21: -294205260i64,
        m22: 4422098328i64,
    }
}

/// The inverse of the Bradford cone-response matrix.
pub open spec fn bradford_inv_s() -> Mat3 {
    Mat3 {
        m00: 4239102250i64,
        m01: -631593222i64,
        m02: 687034357i64,
        m10: 1856736995i64,
        m11: 2226340414i64,
        m12: 211704213i64,
        m20: -36630335i64,
        m21: 171982609i64,
        m22: 4159618685i64,
    }
}

/// The chromatic adaptation matrix from one whitepoint to another: a Bradford
/// (von Kries style) transform scaling cone responses by the ratio of the two
/// whitepoints. Adapting a whitepoint to itself is the identity matrix,
/// exactly. `None` exactly when a source cone response vanishes, which no
/// standard illuminant produces.
pub open spec fn adapt_s(src: Whitepoint, dst: Whitepoint) -> Option<Mat3> {
    if src == dst {
        Some(mat_identity_s())
    } else {
        let cs = mat_vec_s(bradford_s(), whitepoint_xyz_s(src));
        let cd = mat_vec_s(bradford_s(), whitepoint_xyz_s(dst));
        if cs.c0 == 0 || cs.c1 == 0 || cs.c2 == 0 {
            None
        } else {
            let d = mat_diag_s(
                fx_div_s(cd.c0 as int, cs.c0 as int),
                fx_div_s(cd.c1 as int, cs.c1 as int),
                fx_div_s(cd.c2 as int, cs.c2 as int),
            );
            Some(mat_mul_s(mat_mul_s(bradford_inv_s(), d), bradford_s()))
        }
    }
}

/// The chromatic adaptation matrix from one whitepoint to another.
#[verifier::rlimit(80)]
pub fn adapt(src: Whitepoint, dst: Whitepoint) -> (r: Option<Mat3>)
    ensures
        r == adapt_s(src, dst),
        r is Some ==> mat_ok(r->0),
{
    if src == dst {
        Some(mat_identity())
    } else {
        let bf: Mat3 = Mat3 {
            m00: 3844425227i64,
            m01: 1144179288i64,
            m02: -693207722i64,
            m10: -3222084465i64,
            m11: 7359426462i64,
            m12: 157625300i64,
            m20: 167074228i64,
            m21: -294205260i64,
            m22: 4422098328i64,
        };
        let bfi: Mat3 = Mat3 {
            m00: 4239102250i64,
            m01: -631593222i64,
            m02: 687034357i64,
            m10: 1856736995i64,
            m11: 2226340414i64,
            m12: 211704213i64,
            m20: -36630335i64,
            m21: 171982609i64,
            m22: 4159618685i64,
        };
        proof {
            assert(bf == bradford_s());
            assert(bfi == bradford_inv_s());
        }
        let cs: Sample = mat_vec(&bf, &whitepoint_xyz(src));
        let cd: Sample = mat_vec(&bf, &whitepoint_xyz(dst));
        if cs.c0 == 0 || cs.c1 == 0 || cs.c2 == 0 {
            None
        } else {
            let d: Mat3 = Mat3 {
                m00: fx_div(cd.c0, cs.c0),
                m01: 0,
                m02: 0,
                m10: 0,
                m11: fx_div(cd.c1, cs.c1),
                m12: 0,
                m20: 0,
                m21: 0,
                m22: fx_div(cd.c2, cs.c2),
            };
            Some(mat_mul(&mat_mul(&bfi, &d), &bf))
        }
    }
}

/// Adapting any whitepoint to itself is the identity matrix, exactly.
pub proof fn lemma_adapt_self_is_identity(w: Whitepoint)
    ensures
        adapt_s(w, w) == Some(mat_identity_s()),
{
}

/// The reference luminance of a space as a Q32.32 scale relative to the SDR
/// reference of 100 cd/m².
pub open spec fn luminance_scale_s(l: Luminance) -> int {
    match l {
        Luminance::Sdr => FX_ONE as int,
        Luminance::Hdr => 429496729600int,
        Luminance::AdobeRgb => 6871947674int,
        Luminance::DciP3 => 42949672960int,
    }
}

/// The reference luminance of a space as a Q32.32 scale relative to SDR.
pub fn luminance_scale(l: Luminance) -> (r: i64)
    ensures
        r == luminance_scale_s(l),
        0 < r <= 429496729600i64,
        fx_ok(r),
{
    match l {
        Luminance::Sdr => FX_ONE,
        Luminance::Hdr => 429496729600i64,
        Luminance::AdobeRgb => 6871947674i64,
        Luminance::DciP3 => 42949672960i64,
    }
}

} // verus!
