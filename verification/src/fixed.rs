//! Q32.32 fixed-point arithmetic.
//!
//! A value represents the real number `v / 2^32`. All operations round toward
//! zero and saturate symmetrically at `FX_SAT`, so every operation is total on
//! well-formed values and every intermediate of the conversion pipeline stays
//! representable.

use vstd::prelude::*;

verus! {

/// One in Q32.32: 2^32.
pub const FX_ONE: i64 = 4294967296;

/// One half in Q32.32: 2^31.
pub const FX_HALF: i64 = 2147483648;

/// Saturation bound, 2^53: the largest magnitude a well-formed value takes.
pub const FX_SAT: i64 = 9007199254740992;

/// A fixed-point value is well formed when its magnitude is at most `FX_SAT`.
pub open spec fn fx_ok(a: i64) -> bool {
    -FX_SAT <= a <= FX_SAT
}

/// Magnitude of a mathematical integer.
pub open spec fn mag(a: int) -> int {
    if a < 0 {
        -a
    } else {
        a
    }
}

/// Clamp an unbounded integer into the saturation range.
pub open spec fn fx_sat_s(v: int) -> int {
    if v > FX_SAT {
        FX_SAT as int
    } else if v < -FX_SAT {
        -FX_SAT as int
    } else {
        v
    }
}

/// Product of two fixed-point values: magnitudes are multiplied, scaled down
/// by `FX_ONE` rounding toward zero, saturated, and the sign restored.
pub open spec fn fx_mul_s(a: int, b: int) -> int {
    let m = (mag(a) * mag(b)) / (FX_ONE as int);
    let s = if m > FX_SAT {
        FX_SAT as int
    } else {
        m
    };
    if (a < 0) != (b < 0) {
        -s
    } else {
        s
    }
}

/// Quotient of two fixed-point values: the dividend magnitude is scaled up by
/// `FX_ONE`, divided rounding toward zero, saturated, and the sign restored.
pub open spec fn fx_div_s(a: int, b: int) -> int {
    let m = (mag(a) * (FX_ONE as int)) / mag(b);
    let s = if m > FX_SAT {
        FX_SAT as int
    } else {
        m
    };
    if (a < 0) != (b < 0) {
        -s
    } else {
        s
    }
}

/// Clamp a value to the closed interval `[lo, hi]`.
pub open spec fn fx_clamp_s(v: int, lo: int, hi: int) -> int {
    if v < lo {
        lo
    } else if v > hi {
        hi
    } else {
        v
    }
}

/// Saturating addition.
pub fn fx_add(a: i64, b: i64) -> (r: i64)
    requires
        fx_ok(a),
        fx_ok(b),
    ensures
        r == fx_sat_s(a + b),
        fx_ok(r),
{
    let s: i64 = a + b;
    if s > FX_SAT {
        FX_SAT
    } else if s < -FX_SAT {
        -FX_SAT
    } else {
        s
    }
}

/// Saturating subtraction.
pub fn fx_sub(a: i64, b: i64) -> (r: i64)
    requires
        fx_ok(a),
        fx_ok(b),
    ensures
        r == fx_sat_s(a - b),
        fx_ok(r),
{
    let s: i64 = a - b;
    if s > FX_SAT {
        FX_SAT
    } else if s < -FX_SAT {
        -FX_SAT
    } else {
        s
    }
}

/// Saturating fixed-point multiplication, rounding toward zero.
pub fn fx_mul(a: i64, b: i64) -> (r: i64)
    requires
        fx_ok(a),
        fx_ok(b),
    ensures
        r == fx_mul_s(a as int, b as int),
        fx_ok(r),
{
    let neg: bool = (a < 0) != (b < 0);
    let aa: i64 = if a < 0 {
        -a
    } else {
        a
    };
    let bb: i64 = if b < 0 {
        -b
    } else {
        b
    };
    proof {
        assert((aa as int) * (bb as int) <= (FX_SAT as int) * (FX_SAT as int))
            by (nonlinear_arith)
            requires
                0 <= aa <= FX_SAT,
                0 <= bb <= FX_SAT,
        ;
    }
    let m: u128 = (aa as u128) * (bb as u128);
    let q: u128 = m / 4294967296u128;
    proof {
        assert(q <= m) by {
            vstd::arithmetic::div_mod::lemma_div_is_ordered_by_denominator(
                m as int,
                1,
                4294967296,
            );
        }
    }
    let s: i64 = if q > 9007199254740992u128 {
        FX_SAT
    } else {
        q as i64
    };
    if neg {
        -s
    } else {
        s
    }
}

/// Saturating fixed-point division, rounding toward zero.
pub fn fx_div(a: i64, b: i64) -> (r: i64)
    requires
        fx_ok(a),
        fx_ok(b),
        b != 0,
    ensures
        r == fx_div_s(a as int, b as int),
        fx_ok(r),
{
    let neg: bool = (a < 0) != (b < 0);
    let aa: i64 = if a < 0 {
        -a
    } else {
        a
    };
    let bb: i64 = if b < 0 {
        -b
    } else {
        b
    };
    let m: u128 = (aa as u128) * 4294967296u128;
    let q: u128 = m / (bb as u128);
    proof {
        assert(q <= m) by {
            vstd::arithmetic::div_mod::lemma_div_is_ordered_by_denominator(m as int, 1, bb as int);
        }
    }
    let s: i64 = if q > 9007199254740992u128 {
        FX_SAT
    } else {
        q as i64
    };
    if neg {
        -s
    } else {
        s
    }
}

/// The n-th fixed-point power of `b`: `FX_ONE` for n == 0, and otherwise the
/// saturating fixed-point product of the (n-1)-th power with `b`.
pub open spec fn fx_powi_s(b: int, n: nat) -> int
    decreases n,
{
    if n == 0 {
        FX_ONE as int
    } else {
        fx_mul_s(fx_powi_s(b, (n - 1) as nat), b)
    }
}

/// A saturating fixed-point product always lies within the saturation range,
/// and is nonnegative when both factors are.
pub proof fn lemma_mul_s_bounds(a: int, b: int)
    ensures
        -FX_SAT <= fx_mul_s(a, b) <= FX_SAT,
        a >= 0 && b >= 0 ==> fx_mul_s(a, b) >= 0,
{
    vstd::arithmetic::mul::lemma_mul_nonnegative(mag(a), mag(b));
    vstd::arithmetic::div_mod::lemma_div_pos_is_pos(mag(a) * mag(b), FX_ONE as int);
}

/// The saturating fixed-point product is monotone in both factors over
/// nonnegative values.
pub proof fn lemma_mul_s_mono(a1: int, a2: int, b1: int, b2: int)
    requires
        0 <= a1 <= a2,
        0 <= b1 <= b2,
    ensures
        fx_mul_s(a1, b1) <= fx_mul_s(a2, b2),
{
    vstd::arithmetic::mul::lemma_mul_nonnegative(a1, b1);
    vstd::arithmetic::mul::lemma_mul_upper_bound(a1, a2, b1, b2);
    vstd::arithmetic::div_mod::lemma_div_is_ordered(a1 * b1, a2 * b2, FX_ONE as int);
    vstd::arithmetic::div_mod::lemma_div_pos_is_pos(a1 * b1, FX_ONE as int);
}

/// A saturating fixed-point quotient of nonnegative operands is nonnegative.
pub proof fn lemma_div_s_nonneg(a: int, b: int)
    requires
        a >= 0,
        b > 0,
    ensures
        fx_div_s(a, b) >= 0,
{
    vstd::arithmetic::mul::lemma_mul_nonnegative(mag(a), FX_ONE as int);
    vstd::arithmetic::div_mod::lemma_div_pos_is_pos(mag(a) * (FX_ONE as int), mag(b));
}

/// Multiplying a well-formed value by fixed-point one is exact.
pub proof fn lemma_mul_s_one(x: int)
    requires
        -FX_SAT <= x <= FX_SAT,
    ensures
        fx_mul_s(FX_ONE as int, x) == x,
{
    vstd::arithmetic::div_mod::lemma_div_multiples_vanish(mag(x), FX_ONE as int);
    assert(mag(FX_ONE as int) * mag(x) == (FX_ONE as int) * mag(x));
}

/// Multiplying anything by fixed-point zero is exactly zero, on either side.
pub proof fn lemma_mul_s_zero(x: int)
    ensures
        fx_mul_s(0, x) == 0,
        fx_mul_s(x, 0) == 0,
{
    assert(mag(0) == 0);
    vstd::arithmetic::mul::lemma_mul_by_zero_is_zero(mag(x));
    vstd::arithmetic::div_mod::lemma_div_of0(FX_ONE as int);
}

/// Dividing fixed-point zero by anything nonzero is exactly zero.
pub proof fn lemma_div_s_zero(b: int)
    requires
        b != 0,
    ensures
        fx_div_s(0, b) == 0,
{
    assert(mag(0) == 0);
    vstd::arithmetic::mul::lemma_mul_by_zero_is_zero(FX_ONE as int);
    vstd::arithmetic::div_mod::lemma_div_of0(mag(b));
}

/// A saturating fixed-point quotient is strictly positive whenever the
/// dividend is at least one saturation quantum (2^-32 of the saturation
/// bound) and the divisor is positive and well formed.
pub proof fn lemma_div_s_pos(a: int, b: int)
    requires
        2097152 <= a,
        0 < b <= FX_SAT,
    ensures
        fx_div_s(a, b) > 0,
{
    assert(mag(a) * (FX_ONE as int) >= FX_SAT) by (nonlinear_arith)
        requires
            2097152 <= a,
    ;
    vstd::arithmetic::div_mod::lemma_div_non_zero(mag(a) * (FX_ONE as int), mag(b));
}

/// Multiplying by a whole number of fixed-point units and dividing by it
/// again is exact, wherever the product stays representable.
pub proof fn lemma_scale_descale_exact(v: int, k: int)
    requires
        1 <= k,
        mag(v) * k <= FX_SAT,
    ensures
        fx_div_s(fx_mul_s(v, k * (FX_ONE as int)), k * (FX_ONE as int)) == v,
{
    let m = mag(v);
    vstd::arithmetic::mul::lemma_mul_strictly_positive(k, FX_ONE as int);
    assert(m * (k * (FX_ONE as int)) == (FX_ONE as int) * (m * k)) by (nonlinear_arith);
    vstd::arithmetic::div_mod::lemma_div_multiples_vanish(m * k, FX_ONE as int);
    vstd::arithmetic::mul::lemma_mul_nonnegative(m, k);
    let p = fx_mul_s(v, k * (FX_ONE as int));
    assert(mag(p) == m * k);
    assert((m * k) * (FX_ONE as int) == (k * (FX_ONE as int)) * m) by (nonlinear_arith);
    vstd::arithmetic::div_mod::lemma_div_multiples_vanish(m, k * (FX_ONE as int));
    vstd::arithmetic::mul::lemma_mul_inequality(1, k, m);
    vstd::arithmetic::mul::lemma_mul_is_commutative(k, m);
    if v != 0 {
        vstd::arithmetic::mul::lemma_mul_strictly_positive(m, k);
    }
}

/// Fixed-point powers of a nonnegative well-formed base are nonnegative and
/// well formed.
pub proof fn lemma_powi_s_bounds(b: int, n: nat)
    ensures
        -FX_SAT <= fx_powi_s(b, n) <= FX_SAT,
        b >= 0 ==> fx_powi_s(b, n) >= 0,
    decreases n,
{
    if n == 0 {
    } else {
        lemma_powi_s_bounds(b, (n - 1) as nat);
        lemma_mul_s_bounds(fx_powi_s(b, (n - 1) as nat), b);
    }
}

/// Fixed-point powers are monotone in the base over nonnegative values.
pub proof fn lemma_powi_s_mono(b1: int, b2: int, n: nat)
    requires
        0 <= b1 <= b2,
    ensures
        fx_powi_s(b1, n) <= fx_powi_s(b2, n),
    decreases n,
{
    if n == 0 {
    } else {
        lemma_powi_s_mono(b1, b2, (n - 1) as nat);
        lemma_powi_s_bounds(b1, (n - 1) as nat);
        lemma_mul_s_mono(fx_powi_s(b1, (n - 1) as nat), fx_powi_s(b2, (n - 1) as nat), b1, b2);
    }
}

/// Every positive fixed-point power of zero is zero.
pub proof fn lemma_powi_s_zero(n: nat)
    requires
        n >= 1,
    ensures
        fx_powi_s(0, n) == 0,
    decreases n,
{
    let p = fx_powi_s(0, (n - 1) as nat);
    assert(mag(0) == 0);
    vstd::arithmetic::mul::lemma_mul_by_zero_is_zero(mag(p));
    vstd::arithmetic::div_mod::lemma_div_of0(FX_ONE as int);
}

/// `r` is the n-th fixed-point root of `y`: the greatest well-formed value
/// whose n-th fixed-point power does not exceed `y`.
pub open spec fn root_fits(y: int, n: nat, r: int) -> bool {
    0 <= r <= FX_SAT && fx_powi_s(r, n) <= y && (r == FX_SAT || y < fx_powi_s(r + 1, n))
}

/// The n-th fixed-point root of `y`: zero for zero, and otherwise the
/// greatest well-formed value whose n-th fixed-point power does not exceed
/// `y`. (The fixed-point power function is flat at zero over a whole initial
/// segment, so the greatest-fitting value would overstate the root of zero.)
pub open spec fn fx_root_s(y: int, n: nat) -> int {
    if y == 0 {
        0
    } else {
        choose|r: int| root_fits(y, n, r)
    }
}

/// At most one value fits the root characterization.
pub proof fn lemma_root_unique(y: int, n: nat, r1: int, r2: int)
    requires
        root_fits(y, n, r1),
        root_fits(y, n, r2),
    ensures
        r1 == r2,
{
    if r1 < r2 {
        lemma_powi_s_mono(r1 + 1, r2, n);
        assert(false);
    } else if r2 < r1 {
        lemma_powi_s_mono(r2 + 1, r1, n);
        assert(false);
    }
}

/// The n-th fixed-point power of `b`.
pub fn fx_powi(b: i64, n: u32) -> (r: i64)
    requires
        fx_ok(b),
    ensures
        r == fx_powi_s(b as int, n as nat),
        fx_ok(r),
{
    let mut acc: i64 = FX_ONE;
    let mut i: u32 = 0;
    while i < n
        invariant
            fx_ok(b),
            fx_ok(acc),
            i <= n,
            acc == fx_powi_s(b as int, i as nat),
        decreases n - i,
    {
        acc = fx_mul(acc, b);
        i = i + 1;
    }
    acc
}

/// The n-th fixed-point root of `y`, by binary search over the monotone
/// fixed-point power function.
pub fn fx_root(y: i64, n: u32) -> (r: i64)
    requires
        0 <= y <= FX_SAT,
        1 <= n,
    ensures
        r == fx_root_s(y as int, n as nat),
        y > 0 ==> root_fits(y as int, n as nat, r as int),
        0 <= r <= FX_SAT,
{
    if y == 0 {
        return 0;
    }
    let mut lo: i64 = 0;
    let mut hi: i64 = FX_SAT;
    proof {
        lemma_powi_s_zero(n as nat);
    }
    while lo < hi
        invariant
            0 <= lo <= hi <= FX_SAT,
            1 <= n,
            0 <= y <= FX_SAT,
            fx_powi_s(lo as int, n as nat) <= y,
            hi == FX_SAT || y < fx_powi_s(hi as int + 1, n as nat),
        decreases hi - lo,
    {
        let mid: i64 = lo + (hi - lo + 1) / 2;
        let p: i64 = fx_powi(mid, n);
        if p <= y {
            lo = mid;
        } else {
            hi = mid - 1;
        }
    }
    proof {
        assert(root_fits(y as int, n as nat, lo as int));
        lemma_root_unique(y as int, n as nat, lo as int, fx_root_s(y as int, n as nat));
    }
    lo
}

/// Clamp a value to the closed interval `[lo, hi]`.
pub fn fx_clamp(v: i64, lo: i64, hi: i64) -> (r: i64)
    requires
        lo <= hi,
    ensures
        r == fx_clamp_s(v as int, lo as int, hi as int),
{
    if v < lo {
        lo
    } else if v > hi {
        hi
    } else {
        v
    }
}

} // verus!
