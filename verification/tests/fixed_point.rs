//! Direct checks of the fixed-point primitives: rounding, saturation, and the
//! root characterization the transfer engine is built on.

use colorcore::fixed::{
    fx_add, fx_clamp, fx_div, fx_mul, fx_powi, fx_root, fx_sub, FX_HALF, FX_ONE, FX_SAT,
};

#[test]
fn multiplication_rounds_toward_zero() {
    // 1/3 * 3 in Q32.32: 0.333... is held truncated, and the product rounds
    // toward zero, so it lands just below one.
    let third = fx_div(FX_ONE, 3 * FX_ONE);
    let one = fx_mul(third, 3 * FX_ONE);
    assert!(one <= FX_ONE && FX_ONE - one <= 3);
    // Signs are symmetric.
    assert_eq!(fx_mul(-third, 3 * FX_ONE), -one);
    assert_eq!(fx_mul(third, -3 * FX_ONE), -one);
}

#[test]
fn multiplication_saturates() {
    assert_eq!(fx_mul(FX_SAT, FX_SAT), FX_SAT);
    assert_eq!(fx_mul(-FX_SAT, FX_SAT), -FX_SAT);
    assert_eq!(fx_add(FX_SAT, FX_SAT), FX_SAT);
    assert_eq!(fx_sub(-FX_SAT, FX_SAT), -FX_SAT);
}

#[test]
fn exact_products_stay_exact() {
    assert_eq!(fx_mul(FX_HALF, FX_HALF), FX_ONE / 4);
    assert_eq!(fx_mul(3 * FX_ONE, 7 * FX_ONE), 21 * FX_ONE);
    assert_eq!(fx_div(21 * FX_ONE, 7 * FX_ONE), 3 * FX_ONE);
}

#[test]
fn root_is_the_greatest_fitting_value() {
    // The square root of 2 in Q32.32: its square does not exceed 2, and the
    // next value's square does.
    let r = fx_root(2 * FX_ONE, 2);
    assert!(fx_powi(r, 2) <= 2 * FX_ONE);
    assert!(fx_powi(r + 1, 2) > 2 * FX_ONE);
    let sqrt2 = 1.4142135623730951_f64;
    assert!((r as f64 / FX_ONE as f64 - sqrt2).abs() < 1e-9);
}

#[test]
fn root_of_zero_and_one() {
    for n in 1..=20u32 {
        assert_eq!(fx_root(0, n), 0, "root {n} of zero");
        let r = fx_root(FX_ONE, n);
        assert!((r - FX_ONE).abs() <= 1, "root {n} of one came out {r}");
    }
}

#[test]
fn cube_root_of_eight() {
    let r = fx_root(8 * FX_ONE, 3);
    assert!((r as f64 / FX_ONE as f64 - 2.0).abs() < 1e-9);
}

#[test]
fn clamp_bounds() {
    assert_eq!(fx_clamp(5, 0, FX_ONE), 5);
    assert_eq!(fx_clamp(-5, 0, FX_ONE), 0);
    assert_eq!(fx_clamp(FX_ONE + 1, 0, FX_ONE), FX_ONE);
}
