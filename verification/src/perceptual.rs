//! Perceptual color spaces: Oklab, CIE 1976 L*a*b* and L*u*v*, and CIE 1964
//! U*V*W*.
//!
//! These do not factor into a per-channel transfer and a matrix; each defines
//! its own fixed transform from the canonical XYZ representation, built
//! around a cube-root nonlinearity.

use vstd::prelude::*;

use crate::colorspace::Whitepoint;
use crate::chroma::whitepoint_xyz_s;
use crate::fixed::{
    fx_add, fx_div, fx_div_s, fx_mul, fx_mul_s, fx_ok, fx_powi, fx_powi_s, fx_root, fx_root_s,
    fx_sat_s, fx_sub, FX_ONE, FX_SAT,
};
use crate::matrix::{det_s, mat_inv_s, mat_inverse, mat_ok, mat_vec, mat_vec_s, sample_ok, Mat3, Sample};

verus! {

/// The Oklab XYZ-to-LMS cone matrix, in Q32.32.
pub open spec fn oklab_m1_s() -> Mat3 {
    Mat3 {
        m00: 3517290496i64,
        m01: 1554205824i64,
        m02: -553448256i64,
        m10: 141667536i64,
        m11: 3991364096i64,
        m12: 155244336i64,
        m20: 207018720i64,
        m21: 1135444480i64,
        m22: 2722372352i64,
    }
}

/// The Oklab nonlinear-LMS-to-Lab matrix, in Q32.32.
pub open spec fn oklab_m2_s() -> Mat3 {
    Mat3 {
        m00: 903894144i64,
        m01: 3408562432i64,
        m02: -17489308i64,
        m10: 8495438848i64,
        m11: -10430724096i64,
        m12: 1935285248i64,
        m20: 111256992i64,
        m21: 3361979136i64,
        m22: -3473235968i64,
    }
}

/// The Oklab XYZ-to-LMS cone matrix.
pub fn oklab_m1() -> (r: Mat3)
    ensures
        r == oklab_m1_s(),
        mat_ok(r),
{
    Mat3 {
        m00: 3517290496i64,
        m01: 1554205824i64,
        m02: -553448256i64,
        m10: 141667536i64,
        m11: 3991364096i64,
        m12: 155244336i64,
        m20: 207018720i64,
        m21: 1135444480i64,
        m22: 2722372352i64,
    }
}

/// The Oklab nonlinear-LMS-to-Lab matrix.
pub fn oklab_m2() -> (r: Mat3)
    ensures
        r == oklab_m2_s(),
        mat_ok(r),
{
    Mat3 {
        m00: 903894144i64,
        m01: 3408562432i64,
        m02: -17489308i64,
        m10: 8495438848i64,
        m11: -10430724096i64,
        m12: 1935285248i64,
        m20: 111256992i64,
        m21: 3361979136i64,
        m22: -3473235968i64,
    }
}

/// Signed fixed-point cube root, mirrored onto negative inputs.
pub open spec fn fx_cbrt_s(x: int) -> int {
    if x < 0 {
        -fx_root_s(-x, 3)
    } else {
        fx_root_s(x, 3)
    }
}

/// Signed fixed-point cube root.
pub fn fx_cbrt(x: i64) -> (r: i64)
    requires
        fx_ok(x),
    ensures
        r == fx_cbrt_s(x as int),
        fx_ok(r),
{
    if x < 0 {
        -fx_root(-x, 3)
    } else {
        fx_root(x, 3)
    }
}

/// Signed fixed-point cube.
pub open spec fn fx_cube_s(x: int) -> int {
    fx_powi_s(x, 3)
}

/// Signed fixed-point cube.
pub fn fx_cube(x: i64) -> (r: i64)
    requires
        fx_ok(x),
    ensures
        r == fx_cube_s(x as int),
        fx_ok(r),
{
    fx_powi(x, 3)
}

/// Canonical XYZ to Oklab: the cone transform, a cube root per cone channel,
/// and the Lab projection.
pub open spec fn xyz_to_oklab_s(xyz: Sample) -> Sample {
    let lms = mat_vec_s(oklab_m1_s(), xyz);
    let nl = Sample {
        c0: fx_cbrt_s(lms.c0 as int) as i64,
        c1: fx_cbrt_s(lms.c1 as int) as i64,
        c2: fx_cbrt_s(lms.c2 as int) as i64,
    };
    mat_vec_s(oklab_m2_s(), nl)
}

/// Oklab to canonical XYZ: the inverse Lab projection, a cube per cone
/// channel, and the inverse cone transform. `None` exactly when a fixed-point
/// determinant of the two constant matrices vanishes.
pub open spec fn oklab_to_xyz_s(lab: Sample) -> Option<Sample> {
    if det_s(oklab_m2_s()) == 0 || det_s(oklab_m1_s()) == 0 {
        None
    } else {
        let nl = mat_vec_s(mat_inv_s(oklab_m2_s()), lab);
        let lms = Sample {
            c0: fx_cube_s(nl.c0 as int) as i64,
            c1: fx_cube_s(nl.c1 as int) as i64,
            c2: fx_cube_s(nl.c2 as int) as i64,
        };
        Some(mat_vec_s(mat_inv_s(oklab_m1_s()), lms))
    }
}

/// Canonical XYZ to Oklab.
pub fn xyz_to_oklab(xyz: &Sample) -> (r: Sample)
    requires
        sample_ok(*xyz),
    ensures
        r == xyz_to_oklab_s(*xyz),
        sample_ok(r),
{
    let lms: Sample = mat_vec(&oklab_m1(), xyz);
    let nl: Sample = Sample { c0: fx_cbrt(lms.c0), c1: fx_cbrt(lms.c1), c2: fx_cbrt(lms.c2) };
    mat_vec(&oklab_m2(), &nl)
}

/// Oklab to canonical XYZ.
pub fn oklab_to_xyz(lab: &Sample) -> (r: Option<Sample>)
    requires
        sample_ok(*lab),
    ensures
        r == oklab_to_xyz_s(*lab),
        r is Some ==> sample_ok(r->0),
{
    let m2i: Option<Mat3> = mat_inverse(&oklab_m2());
    let m1i: Option<Mat3> = mat_inverse(&oklab_m1());
    match (m2i, m1i) {
        (Some(m2i), Some(m1i)) => {
            let nl: Sample = mat_vec(&m2i, lab);
            let lms: Sample = Sample { c0: fx_cube(nl.c0), c1: fx_cube(nl.c1), c2: fx_cube(nl.c2) };
            Some(mat_vec(&m1i, &lms))
        },
        _ => None,
    }
}

/// 6/29 in Q32.32: the CIELAB function breakpoint.
pub const LAB_DELTA: i64 = 888613923;

/// (6/29)^3 in Q32.32: the CIELAB forward breakpoint.
pub const LAB_DELTA3: i64 = 38038170;

/// 3 (6/29)^2 in Q32.32: the reciprocal slope of the CIELAB linear segment.
pub const LAB_3D2: i64 = 551553470;

/// 4/29 in Q32.32: the offset of the CIELAB linear segment.
pub const LAB_4_29: i64 = 592409282;

/// 116 in Q32.32.
pub const LAB_116: i64 = 498216206336;

/// 16 in Q32.32.
pub const LAB_16: i64 = 68719476736;

/// 500 in Q32.32.
pub const LAB_500: i64 = 2147483648000;

/// 200 in Q32.32.
pub const LAB_200: i64 = 858993459200;

/// The CIELAB forward function: a cube root above the breakpoint, the linear
/// segment `t / (3 delta^2) + 4/29` below it.
pub open spec fn lab_f_s(t: int) -> int {
    if t > LAB_DELTA3 {
        fx_root_s(t, 3)
    } else {
        fx_sat_s(fx_div_s(t, LAB_3D2 as int) + (LAB_4_29 as int))
    }
}

/// The CIELAB inverse function: a cube above the breakpoint, the linear
/// segment `3 delta^2 (f - 4/29)` below it.
pub open spec fn lab_finv_s(f: int) -> int {
    if f > LAB_DELTA {
        fx_powi_s(f, 3)
    } else {
        fx_mul_s(LAB_3D2 as int, fx_sat_s(f - (LAB_4_29 as int)))
    }
}

/// The CIELAB forward function.
fn lab_f(t: i64) -> (r: i64)
    requires
        fx_ok(t),
    ensures
        r == lab_f_s(t as int),
        fx_ok(r),
{
    if t > LAB_DELTA3 {
        fx_root(t, 3)
    } else {
        fx_add(fx_div(t, LAB_3D2), LAB_4_29)
    }
}

/// The CIELAB inverse function.
fn lab_finv(f: i64) -> (r: i64)
    requires
        fx_ok(f),
    ensures
        r == lab_finv_s(f as int),
        fx_ok(r),
{
    if f > LAB_DELTA {
        fx_powi(f, 3)
    } else {
        fx_mul(LAB_3D2, fx_sub(f, LAB_4_29))
    }
}

/// Canonical XYZ to CIELAB, relative to the canonical D65 whitepoint:
/// `L = 116 f(Y/Yn) - 16`, `a = 500 (f(X/Xn) - f(Y/Yn))`,
/// `b = 200 (f(Y/Yn) - f(Z/Zn))`, with L on the standard 0..100 scale.
pub open spec fn xyz_to_lab_s(xyz: Sample) -> Sample {
    let wp = whitepoint_xyz_s(Whitepoint::D65);
    let fx = lab_f_s(fx_div_s(xyz.c0 as int, wp.c0 as int));
    let fy = lab_f_s(fx_div_s(xyz.c1 as int, wp.c1 as int));
    let fz = lab_f_s(fx_div_s(xyz.c2 as int, wp.c2 as int));
    Sample {
        c0: fx_sat_s(fx_mul_s(LAB_116 as int, fy) - (LAB_16 as int)) as i64,
        c1: fx_mul_s(LAB_500 as int, fx_sat_s(fx - fy)) as i64,
        c2: fx_mul_s(LAB_200 as int, fx_sat_s(fy - fz)) as i64,
    }
}

/// CIELAB to canonical XYZ, relative to the canonical D65 whitepoint.
pub open spec fn lab_to_xyz_s(lab: Sample) -> Sample {
    let wp = whitepoint_xyz_s(Whitepoint::D65);
    let fy = fx_div_s(fx_sat_s((lab.c0 as int) + (LAB_16 as int)), LAB_116 as int);
    let fx = fx_sat_s(fy + fx_div_s(lab.c1 as int, LAB_500 as int));
    let fz = fx_sat_s(fy - fx_div_s(lab.c2 as int, LAB_200 as int));
    Sample {
        c0: fx_mul_s(lab_finv_s(fx), wp.c0 as int) as i64,
        c1: fx_mul_s(lab_finv_s(fy), wp.c1 as int) as i64,
        c2: fx_mul_s(lab_finv_s(fz), wp.c2 as int) as i64,
    }
}

/// 3 in Q32.32.
pub const LUV_3: i64 = 12884901888;

/// 4 in Q32.32.
pub const LUV_4: i64 = 17179869184;

/// 9 in Q32.32.
pub const LUV_9: i64 = 38654705664;

/// 12 in Q32.32.
pub const LUV_12: i64 = 51539607552;

/// 13 in Q32.32.
pub const LUV_13: i64 = 55834574848;

/// 15 in Q32.32.
pub const LUV_15: i64 = 64424509440;

/// 20 in Q32.32.
pub const LUV_20: i64 = 85899345920;

/// The CIELUV chromaticity denominator `X + 15 Y + 3 Z`.
pub open spec fn luv_den_s(v: Sample) -> int {
    fx_sat_s(fx_sat_s((v.c0 as int) + fx_mul_s(LUV_15 as int, v.c1 as int)) + fx_mul_s(
        LUV_3 as int,
        v.c2 as int,
    ))
}

/// The u' chromaticity of the canonical whitepoint.
pub open spec fn luv_un_s() -> int {
    let wp = whitepoint_xyz_s(Whitepoint::D65);
    fx_div_s(fx_mul_s(LUV_4 as int, wp.c0 as int), luv_den_s(wp))
}

/// The v' chromaticity of the canonical whitepoint.
pub open spec fn luv_vn_s() -> int {
    let wp = whitepoint_xyz_s(Whitepoint::D65);
    fx_div_s(fx_mul_s(LUV_9 as int, wp.c1 as int), luv_den_s(wp))
}

/// Canonical XYZ to CIELUV, relative to the canonical D65 whitepoint:
/// the CIELAB lightness together with `u = 13 L (u' - u'n)` and
/// `v = 13 L (v' - v'n)` over the (u', v') chromaticities. A sample whose
/// chromaticity denominator vanishes (black) takes the whitepoint
/// chromaticity, so its u and v are zero.
pub open spec fn xyz_to_luv_s(xyz: Sample) -> Sample {
    let wp = whitepoint_xyz_s(Whitepoint::D65);
    let den = luv_den_s(xyz);
    let fy = lab_f_s(fx_div_s(xyz.c1 as int, wp.c1 as int));
    let l = fx_sat_s(fx_mul_s(LAB_116 as int, fy) - (LAB_16 as int));
    let up = if den <= 0 {
        luv_un_s()
    } else {
        fx_div_s(fx_mul_s(LUV_4 as int, xyz.c0 as int), den)
    };
    let vp = if den <= 0 {
        luv_vn_s()
    } else {
        fx_div_s(fx_mul_s(LUV_9 as int, xyz.c1 as int), den)
    };
    let l13 = fx_mul_s(LUV_13 as int, l);
    Sample {
        c0: l as i64,
        c1: fx_mul_s(l13, fx_sat_s(up - luv_un_s())) as i64,
        c2: fx_mul_s(l13, fx_sat_s(vp - luv_vn_s())) as i64,
    }
}

/// CIELUV to canonical XYZ. A sample with no lightness, or whose recovered
/// chromaticity degenerates, is black.
pub open spec fn luv_to_xyz_s(luv: Sample) -> Sample {
    let wp = whitepoint_xyz_s(Whitepoint::D65);
    let l = luv.c0 as int;
    let l13 = fx_mul_s(LUV_13 as int, l);
    if l <= 0 || l13 == 0 {
        Sample { c0: 0, c1: 0, c2: 0 }
    } else {
        let up = fx_sat_s(fx_div_s(luv.c1 as int, l13) + luv_un_s());
        let vp = fx_sat_s(fx_div_s(luv.c2 as int, l13) + luv_vn_s());
        let v4 = fx_mul_s(LUV_4 as int, vp);
        if v4 <= 0 {
            Sample { c0: 0, c1: 0, c2: 0 }
        } else {
            let fy = fx_div_s(fx_sat_s(l + (LAB_16 as int)), LAB_116 as int);
            let y = fx_mul_s(lab_finv_s(fy), wp.c1 as int);
            Sample {
                c0: fx_mul_s(y, fx_div_s(fx_mul_s(LUV_9 as int, up), v4)) as i64,
                c1: y as i64,
                c2: fx_mul_s(
                    y,
                    fx_div_s(
                        fx_sat_s(
                            fx_sat_s((LUV_12 as int) - fx_mul_s(LUV_3 as int, up)) - fx_mul_s(
                                LUV_20 as int,
                                vp,
                            ),
                        ),
                        v4,
                    ),
                ) as i64,
            }
        }
    }
}

/// The (u'n, v'n) chromaticity of the canonical whitepoint.
fn luv_wp_uv() -> (r: (i64, i64))
    ensures
        r.0 as int == luv_un_s(),
        r.1 as int == luv_vn_s(),
        fx_ok(r.0),
        fx_ok(r.1),
{
    let wp: Sample = crate::chroma::whitepoint_xyz(Whitepoint::D65);
    let den: i64 = fx_add(fx_add(wp.c0, fx_mul(LUV_15, wp.c1)), fx_mul(LUV_3, wp.c2));
    (fx_div(fx_mul(LUV_4, wp.c0), den), fx_div(fx_mul(LUV_9, wp.c1), den))
}

/// Canonical XYZ to CIELUV.
pub fn xyz_to_luv(xyz: &Sample) -> (r: Sample)
    requires
        sample_ok(*xyz),
    ensures
        r == xyz_to_luv_s(*xyz),
        sample_ok(r),
{
    let wp: Sample = crate::chroma::whitepoint_xyz(Whitepoint::D65);
    let (un, vn): (i64, i64) = luv_wp_uv();
    let den: i64 = fx_add(fx_add(xyz.c0, fx_mul(LUV_15, xyz.c1)), fx_mul(LUV_3, xyz.c2));
    let fy: i64 = lab_f(fx_div(xyz.c1, wp.c1));
    let l: i64 = fx_sub(fx_mul(LAB_116, fy), LAB_16);
    let up: i64 = if den <= 0 {
        un
    } else {
        fx_div(fx_mul(LUV_4, xyz.c0), den)
    };
    let vp: i64 = if den <= 0 {
        vn
    } else {
        fx_div(fx_mul(LUV_9, xyz.c1), den)
    };
    let l13: i64 = fx_mul(LUV_13, l);
    Sample { c0: l, c1: fx_mul(l13, fx_sub(up, un)), c2: fx_mul(l13, fx_sub(vp, vn)) }
}

/// CIELUV to canonical XYZ.
pub fn luv_to_xyz(luv: &Sample) -> (r: Sample)
    requires
        sample_ok(*luv),
    ensures
        r == luv_to_xyz_s(*luv),
        sample_ok(r),
{
    let wp: Sample = crate::chroma::whitepoint_xyz(Whitepoint::D65);
    let (un, vn): (i64, i64) = luv_wp_uv();
    let l: i64 = luv.c0;
    let l13: i64 = fx_mul(LUV_13, l);
    if l <= 0 || l13 == 0 {
        Sample { c0: 0, c1: 0, c2: 0 }
    } else {
        let up: i64 = fx_add(fx_div(luv.c1, l13), un);
        let vp: i64 = fx_add(fx_div(luv.c2, l13), vn);
        let v4: i64 = fx_mul(LUV_4, vp);
        if v4 <= 0 {
            Sample { c0: 0, c1: 0, c2: 0 }
        } else {
            let fy: i64 = fx_div(fx_add(l, LAB_16), LAB_116);
            let y: i64 = fx_mul(lab_finv(fy), wp.c1);
            Sample {
                c0: fx_mul(y, fx_div(fx_mul(LUV_9, up), v4)),
                c1: y,
                c2: fx_mul(
                    y,
                    fx_div(fx_sub(fx_sub(LUV_12, fx_mul(LUV_3, up)), fx_mul(LUV_20, vp)), v4),
                ),
            }
        }
    }
}

/// 1.5 in Q32.32.
pub const UVW_3_2: i64 = 6442450944;

/// 6 in Q32.32.
pub const UVW_6: i64 = 25769803776;

/// 17 in Q32.32.
pub const UVW_17: i64 = 73014444032;

/// 25 in Q32.32.
pub const UVW_25: i64 = 107374182400;

/// 30 in Q32.32.
pub const UVW_30: i64 = 128849018880;

/// 100 in Q32.32.
pub const UVW_100: i64 = 429496729600;

/// The v chromaticity of the canonical whitepoint on the CIE 1960 uniform
/// chromaticity scale (whose u agrees with CIELUV's u').
pub open spec fn uvw_vn_s() -> int {
    let wp = whitepoint_xyz_s(Whitepoint::D65);
    fx_div_s(fx_mul_s(UVW_6 as int, wp.c1 as int), luv_den_s(wp))
}

/// Canonical XYZ to CIE 1964 UVW: `W = 25 (100 Y)^(1/3) - 17` over the
/// luminance on its 0..100 scale, and `U = 13 W (u - u0)`,
/// `V = 13 W (v - v0)` over the 1960 uniform chromaticity scale. Channel
/// order is (U, V, W). A sample whose chromaticity denominator vanishes
/// takes the whitepoint chromaticity.
pub open spec fn xyz_to_uvw_s(xyz: Sample) -> Sample {
    let den = luv_den_s(xyz);
    let w = fx_sat_s(fx_mul_s(UVW_25 as int, fx_cbrt_s(fx_mul_s(UVW_100 as int, xyz.c1 as int)))
        - (UVW_17 as int));
    let u = if den <= 0 {
        luv_un_s()
    } else {
        fx_div_s(fx_mul_s(LUV_4 as int, xyz.c0 as int), den)
    };
    let v = if den <= 0 {
        uvw_vn_s()
    } else {
        fx_div_s(fx_mul_s(UVW_6 as int, xyz.c1 as int), den)
    };
    let w13 = fx_mul_s(LUV_13 as int, w);
    Sample {
        c0: fx_mul_s(w13, fx_sat_s(u - luv_un_s())) as i64,
        c1: fx_mul_s(w13, fx_sat_s(v - uvw_vn_s())) as i64,
        c2: w as i64,
    }
}

/// CIE 1964 UVW to canonical XYZ. A sample with no W, or whose recovered
/// chromaticity degenerates, is black.
pub open spec fn uvw_to_xyz_s(uvw: Sample) -> Sample {
    let w = uvw.c2 as int;
    let w13 = fx_mul_s(LUV_13 as int, w);
    if w <= 0 || w13 == 0 {
        Sample { c0: 0, c1: 0, c2: 0 }
    } else {
        let u = fx_sat_s(fx_div_s(uvw.c0 as int, w13) + luv_un_s());
        let v = fx_sat_s(fx_div_s(uvw.c1 as int, w13) + uvw_vn_s());
        let v6 = fx_mul_s(UVW_6 as int, v);
        if v <= 0 || v6 == 0 {
            Sample { c0: 0, c1: 0, c2: 0 }
        } else {
            let y = fx_div_s(
                fx_powi_s(fx_div_s(fx_sat_s(w + (UVW_17 as int)), UVW_25 as int), 3),
                UVW_100 as int,
            );
            Sample {
                c0: fx_mul_s(y, fx_div_s(fx_mul_s(UVW_3_2 as int, u), v)) as i64,
                c1: y as i64,
                c2: fx_mul_s(
                    y,
                    fx_div_s(
                        fx_sat_s(
                            fx_sat_s((LUV_12 as int) - fx_mul_s(LUV_3 as int, u)) - fx_mul_s(
                                UVW_30 as int,
                                v,
                            ),
                        ),
                        v6,
                    ),
                ) as i64,
            }
        }
    }
}

/// Canonical XYZ to CIE 1964 UVW.
pub fn xyz_to_uvw(xyz: &Sample) -> (r: Sample)
    requires
        sample_ok(*xyz),
    ensures
        r == xyz_to_uvw_s(*xyz),
        sample_ok(r),
{
    let wp: Sample = crate::chroma::whitepoint_xyz(Whitepoint::D65);
    let (un, _luv_vn): (i64, i64) = luv_wp_uv();
    let d0: i64 = fx_add(fx_add(wp.c0, fx_mul(LUV_15, wp.c1)), fx_mul(LUV_3, wp.c2));
    let vn: i64 = fx_div(fx_mul(UVW_6, wp.c1), d0);
    let den: i64 = fx_add(fx_add(xyz.c0, fx_mul(LUV_15, xyz.c1)), fx_mul(LUV_3, xyz.c2));
    let w: i64 = fx_sub(fx_mul(UVW_25, fx_cbrt(fx_mul(UVW_100, xyz.c1))), UVW_17);
    let u: i64 = if den <= 0 {
        un
    } else {
        fx_div(fx_mul(LUV_4, xyz.c0), den)
    };
    let v: i64 = if den <= 0 {
        vn
    } else {
        fx_div(fx_mul(UVW_6, xyz.c1), den)
    };
    let w13: i64 = fx_mul(LUV_13, w);
    Sample { c0: fx_mul(w13, fx_sub(u, un)), c1: fx_mul(w13, fx_sub(v, vn)), c2: w }
}

/// CIE 1964 UVW to canonical XYZ.
pub fn uvw_to_xyz(uvw: &Sample) -> (r: Sample)
    requires
        sample_ok(*uvw),
    ensures
        r == uvw_to_xyz_s(*uvw),
        sample_ok(r),
{
    let wp: Sample = crate::chroma::whitepoint_xyz(Whitepoint::D65);
    let (un, _luv_vn): (i64, i64) = luv_wp_uv();
    let d0: i64 = fx_add(fx_add(wp.c0, fx_mul(LUV_15, wp.c1)), fx_mul(LUV_3, wp.c2));
    let vn: i64 = fx_div(fx_mul(UVW_6, wp.c1), d0);
    let w: i64 = uvw.c2;
    let w13: i64 = fx_mul(LUV_13, w);
    if w <= 0 || w13 == 0 {
        Sample { c0: 0, c1: 0, c2: 0 }
    } else {
        let u: i64 = fx_add(fx_div(uvw.c0, w13), un);
        let v: i64 = fx_add(fx_div(uvw.c1, w13), vn);
        let v6: i64 = fx_mul(UVW_6, v);
        if v <= 0 || v6 == 0 {
            Sample { c0: 0, c1: 0, c2: 0 }
        } else {
            let y: i64 = fx_div(fx_powi(fx_div(fx_add(w, UVW_17), UVW_25), 3), UVW_100);
            Sample {
                c0: fx_mul(y, fx_div(fx_mul(UVW_3_2, u), v)),
                c1: y,
                c2: fx_mul(
                    y,
                    fx_div(fx_sub(fx_sub(LUV_12, fx_mul(LUV_3, u)), fx_mul(UVW_30, v)), v6),
                ),
            }
        }
    }
}

/// Canonical XYZ to CIELAB.
pub fn xyz_to_lab(xyz: &Sample) -> (r: Sample)
    requires
        sample_ok(*xyz),
    ensures
        r == xyz_to_lab_s(*xyz),
        sample_ok(r),
{
    let wp: Sample = crate::chroma::whitepoint_xyz(Whitepoint::D65);
    let fx: i64 = lab_f(fx_div(xyz.c0, wp.c0));
    let fy: i64 = lab_f(fx_div(xyz.c1, wp.c1));
    let fz: i64 = lab_f(fx_div(xyz.c2, wp.c2));
    Sample {
        c0: fx_sub(fx_mul(LAB_116, fy), LAB_16),
        c1: fx_mul(LAB_500, fx_sub(fx, fy)),
        c2: fx_mul(LAB_200, fx_sub(fy, fz)),
    }
}

/// CIELAB to canonical XYZ.
pub fn lab_to_xyz(lab: &Sample) -> (r: Sample)
    requires
        sample_ok(*lab),
    ensures
        r == lab_to_xyz_s(*lab),
        sample_ok(r),
{
    let wp: Sample = crate::chroma::whitepoint_xyz(Whitepoint::D65);
    let fy: i64 = fx_div(fx_add(lab.c0, LAB_16), LAB_116);
    let fx: i64 = fx_add(fy, fx_div(lab.c1, LAB_500));
    let fz: i64 = fx_sub(fy, fx_div(lab.c2, LAB_200));
    Sample {
        c0: fx_mul(lab_finv(fx), wp.c0),
        c1: fx_mul(lab_finv(fy), wp.c1),
        c2: fx_mul(lab_finv(fz), wp.c2),
    }
}

} // verus!
