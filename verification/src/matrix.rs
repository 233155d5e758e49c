//! Three-component samples and 3x3 matrices over Q32.32 fixed-point values.
//!
//! These carry tristimulus triples through the conversion pipeline: a sample
//! holds three channels in the order its color space defines, and a matrix
//! holds a linear transform such as an RGB-to-XYZ map or a chromatic
//! adaptation.

use vstd::prelude::*;

use crate::fixed::{
    fx_add, fx_div, fx_div_s, fx_mul, fx_mul_s, fx_ok, fx_sat_s, fx_sub, lemma_mul_s_one,
    lemma_mul_s_zero, FX_ONE, FX_SAT,
};

verus! {

/// A three-channel sample in Q32.32 fixed point. Channel order is defined by
/// the color space a sample belongs to (R,G,B or Y,U,V or X,Y,Z or L,a,b).
#[derive(Debug, Copy, Clone, PartialEq, Eq, Structural)]
pub struct Sample {
    pub c0: i64,
    pub c1: i64,
    pub c2: i64,
}

/// A 3x3 matrix in Q32.32 fixed point, row major: `mRC` is row R, column C.
#[derive(Debug, Copy, Clone, PartialEq, Eq, Structural)]
pub struct Mat3 {
    pub m00: i64,
    pub m01: i64,
    pub m02: i64,
    pub m10: i64,
    pub m11: i64,
    pub m12: i64,
    pub m20: i64,
    pub m21: i64,
    pub m22: i64,
}

/// All three channels of a sample are well-formed fixed-point values.
pub open spec fn sample_ok(v: Sample) -> bool {
    fx_ok(v.c0) && fx_ok(v.c1) && fx_ok(v.c2)
}

/// All nine entries of a matrix are well-formed fixed-point values.
pub open spec fn mat_ok(m: Mat3) -> bool {
    fx_ok(m.m00) && fx_ok(m.m01) && fx_ok(m.m02) && fx_ok(m.m10) && fx_ok(m.m11) && fx_ok(m.m12)
        && fx_ok(m.m20) && fx_ok(m.m21) && fx_ok(m.m22)
}

/// Saturating fixed-point dot product of a row and a sample, summed left to
/// right.
pub open spec fn dot_s(a0: int, a1: int, a2: int, b0: int, b1: int, b2: int) -> int {
    fx_sat_s(fx_sat_s(fx_mul_s(a0, b0) + fx_mul_s(a1, b1)) + fx_mul_s(a2, b2))
}

/// Matrix-sample product in saturating fixed point.
pub open spec fn mat_vec_s(m: Mat3, v: Sample) -> Sample {
    Sample {
        c0: dot_s(
            m.m00 as int,
            m.m01 as int,
            m.m02 as int,
            v.c0 as int,
            v.c1 as int,
            v.c2 as int,
        ) as i64,
        c1: dot_s(
            m.m10 as int,
            m.m11 as int,
            m.m12 as int,
            v.c0 as int,
            v.c1 as int,
            v.c2 as int,
        ) as i64,
        c2: dot_s(
            m.m20 as int,
            m.m21 as int,
            m.m22 as int,
            v.c0 as int,
            v.c1 as int,
            v.c2 as int,
        ) as i64,
    }
}

/// The 2x2 minor `ad - bc` in saturating fixed point.
pub open spec fn minor_s(a: int, d: int, b: int, c: int) -> int {
    fx_sat_s(fx_mul_s(a, d) - fx_mul_s(b, c))
}

/// Determinant of a matrix in saturating fixed point, by cofactor expansion
/// along the first row.
pub open spec fn det_s(m: Mat3) -> int {
    fx_sat_s(
        fx_sat_s(
            fx_mul_s(m.m00 as int, minor_s(m.m11 as int, m.m22 as int, m.m12 as int, m.m21 as int))
                - fx_mul_s(
                m.m01 as int,
                minor_s(m.m10 as int, m.m22 as int, m.m12 as int, m.m20 as int),
            ),
        ) + fx_mul_s(m.m02 as int, minor_s(m.m10 as int, m.m21 as int, m.m11 as int, m.m20 as int)),
    )
}

/// Inverse of a matrix in saturating fixed point: the adjugate with every
/// entry divided by the determinant. Meaningful only when `det_s(m) != 0`.
pub open spec fn mat_inv_s(m: Mat3) -> Mat3 {
    let d = det_s(m);
    Mat3 {
        m00: fx_div_s(minor_s(m.m11 as int, m.m22 as int, m.m12 as int, m.m21 as int), d) as i64,
        m01: fx_div_s(minor_s(m.m02 as int, m.m21 as int, m.m01 as int, m.m22 as int), d) as i64,
        m02: fx_div_s(minor_s(m.m01 as int, m.m12 as int, m.m02 as int, m.m11 as int), d) as i64,
        m10: fx_div_s(minor_s(m.m12 as int, m.m20 as int, m.m10 as int, m.m22 as int), d) as i64,
        m11: fx_div_s(minor_s(m.m00 as int, m.m22 as int, m.m02 as int, m.m20 as int), d) as i64,
        m12: fx_div_s(minor_s(m.m02 as int, m.m10 as int, m.m00 as int, m.m12 as int), d) as i64,
        m20: fx_div_s(minor_s(m.m10 as int, m.m21 as int, m.m11 as int, m.m20 as int), d) as i64,
        m21: fx_div_s(minor_s(m.m01 as int, m.m20 as int, m.m00 as int, m.m21 as int), d) as i64,
        m22: fx_div_s(minor_s(m.m00 as int, m.m11 as int, m.m01 as int, m.m10 as int), d) as i64,
    }
}

/// The identity matrix.
pub open spec fn mat_identity_s() -> Mat3 {
    Mat3 {
        m00: FX_ONE,
        m01: 0,
        m02: 0,
        m10: 0,
        m11: FX_ONE,
        m12: 0,
        m20: 0,
        m21: 0,
        m22: FX_ONE,
    }
}

/// The identity matrix.
pub fn mat_identity() -> (r: Mat3)
    ensures
        r == mat_identity_s(),
        mat_ok(r),
{
    Mat3 { m00: FX_ONE, m01: 0, m02: 0, m10: 0, m11: FX_ONE, m12: 0, m20: 0, m21: 0, m22: FX_ONE }
}

/// The identity matrix maps every well-formed sample to itself, exactly.
pub proof fn lemma_mat_vec_identity(v: Sample)
    requires
        sample_ok(v),
    ensures
        mat_vec_s(mat_identity_s(), v) == v,
{
    lemma_mul_s_one(v.c0 as int);
    lemma_mul_s_one(v.c1 as int);
    lemma_mul_s_one(v.c2 as int);
    lemma_mul_s_zero(v.c0 as int);
    lemma_mul_s_zero(v.c1 as int);
    lemma_mul_s_zero(v.c2 as int);
}

/// Matrix-sample product.
pub fn mat_vec(m: &Mat3, v: &Sample) -> (r: Sample)
    requires
        mat_ok(*m),
        sample_ok(*v),
    ensures
        r == mat_vec_s(*m, *v),
        sample_ok(r),
{
    Sample {
        c0: fx_add(fx_add(fx_mul(m.m00, v.c0), fx_mul(m.m01, v.c1)), fx_mul(m.m02, v.c2)),
        c1: fx_add(fx_add(fx_mul(m.m10, v.c0), fx_mul(m.m11, v.c1)), fx_mul(m.m12, v.c2)),
        c2: fx_add(fx_add(fx_mul(m.m20, v.c0), fx_mul(m.m21, v.c1)), fx_mul(m.m22, v.c2)),
    }
}

/// The 2x2 minor `ad - bc`.
fn minor(a: i64, d: i64, b: i64, c: i64) -> (r: i64)
    requires
        fx_ok(a),
        fx_ok(b),
        fx_ok(c),
        fx_ok(d),
    ensures
        r == minor_s(a as int, d as int, b as int, c as int),
        fx_ok(r),
{
    fx_sub(fx_mul(a, d), fx_mul(b, c))
}

/// Determinant by cofactor expansion along the first row.
pub fn mat_det(m: &Mat3) -> (r: i64)
    requires
        mat_ok(*m),
    ensures
        r == det_s(*m),
        fx_ok(r),
{
    let d0: i64 = minor(m.m11, m.m22, m.m12, m.m21);
    let d1: i64 = minor(m.m10, m.m22, m.m12, m.m20);
    let d2: i64 = minor(m.m10, m.m21, m.m11, m.m20);
    fx_add(fx_sub(fx_mul(m.m00, d0), fx_mul(m.m01, d1)), fx_mul(m.m02, d2))
}

/// Inverse through the adjugate. Returns `None` exactly when the fixed-point
/// determinant vanishes.
pub fn mat_inverse(m: &Mat3) -> (r: Option<Mat3>)
    requires
        mat_ok(*m),
    ensures
        det_s(*m) == 0 <==> r is None,
        r is Some ==> r->0 == mat_inv_s(*m) && mat_ok(r->0),
{
    let d: i64 = mat_det(m);
    if d == 0 {
        None
    } else {
        Some(
            Mat3 {
                m00: fx_div(minor(m.m11, m.m22, m.m12, m.m21), d),
                m01: fx_div(minor(m.m02, m.m21, m.m01, m.m22), d),
                m02: fx_div(minor(m.m01, m.m12, m.m02, m.m11), d),
                m10: fx_div(minor(m.m12, m.m20, m.m10, m.m22), d),
                m11: fx_div(minor(m.m00, m.m22, m.m02, m.m20), d),
                m12: fx_div(minor(m.m02, m.m10, m.m00, m.m12), d),
                m20: fx_div(minor(m.m10, m.m21, m.m11, m.m20), d),
                m21: fx_div(minor(m.m01, m.m20, m.m00, m.m21), d),
                m22: fx_div(minor(m.m00, m.m11, m.m01, m.m10), d),
            },
        )
    }
}

/// Matrix product in saturating fixed point.
pub open spec fn mat_mul_s(a: Mat3, b: Mat3) -> Mat3 {
    Mat3 {
        m00: dot_s(a.m00 as int, a.m01 as int, a.m02 as int, b.m00 as int, b.m10 as int, b.m20 as int) as i64,
        m01: dot_s(a.m00 as int, a.m01 as int, a.m02 as int, b.m01 as int, b.m11 as int, b.m21 as int) as i64,
        m02: dot_s(a.m00 as int, a.m01 as int, a.m02 as int, b.m02 as int, b.m12 as int, b.m22 as int) as i64,
        m10: dot_s(a.m10 as int, a.m11 as int, a.m12 as int, b.m00 as int, b.m10 as int, b.m20 as int) as i64,
        m11: dot_s(a.m10 as int, a.m11 as int, a.m12 as int, b.m01 as int, b.m11 as int, b.m21 as int) as i64,
        m12: dot_s(a.m10 as int, a.m11 as int, a.m12 as int, b.m02 as int, b.m12 as int, b.m22 as int) as i64,
        m20: dot_s(a.m20 as int, a.m21 as int, a.m22 as int, b.m00 as int, b.m10 as int, b.m20 as int) as i64,
        m21: dot_s(a.m20 as int, a.m21 as int, a.m22 as int, b.m01 as int, b.m11 as int, b.m21 as int) as i64,
        m22: dot_s(a.m20 as int, a.m21 as int, a.m22 as int, b.m02 as int, b.m12 as int, b.m22 as int) as i64,
    }
}

/// Matrix product.
pub fn mat_mul(a: &Mat3, b: &Mat3) -> (r: Mat3)
    requires
        mat_ok(*a),
        mat_ok(*b),
    ensures
        r == mat_mul_s(*a, *b),
        mat_ok(r),
{
    Mat3 {
        m00: fx_add(fx_add(fx_mul(a.m00, b.m00), fx_mul(a.m01, b.m10)), fx_mul(a.m02, b.m20)),
        m01: fx_add(fx_add(fx_mul(a.m00, b.m01), fx_mul(a.m01, b.m11)), fx_mul(a.m02, b.m21)),
        m02: fx_add(fx_add(fx_mul(a.m00, b.m02), fx_mul(a.m01, b.m12)), fx_mul(a.m02, b.m22)),
        m10: fx_add(fx_add(fx_mul(a.m10, b.m00), fx_mul(a.m11, b.m10)), fx_mul(a.m12, b.m20)),
        m11: fx_add(fx_add(fx_mul(a.m10, b.m01), fx_mul(a.m11, b.m11)), fx_mul(a.m12, b.m21)),
        m12: fx_add(fx_add(fx_mul(a.m10, b.m02), fx_mul(a.m11, b.m12)), fx_mul(a.m12, b.m22)),
        m20: fx_add(fx_add(fx_mul(a.m20, b.m00), fx_mul(a.m21, b.m10)), fx_mul(a.m22, b.m20)),
        m21: fx_add(fx_add(fx_mul(a.m20, b.m01), fx_mul(a.m21, b.m11)), fx_mul(a.m22, b.m21)),
        m22: fx_add(fx_add(fx_mul(a.m20, b.m02), fx_mul(a.m21, b.m12)), fx_mul(a.m22, b.m22)),
    }
}

} // verus!
