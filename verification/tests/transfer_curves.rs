//! Round-trip checks of every implemented transfer function, sampled densely
//! over its domain including the boundary and breakpoint values.

use colorcore::fixed::FX_ONE;
use colorcore::transfer::{transfer_decode, transfer_encode};
use colorcore::Transfer;

fn q(x: f64) -> i64 {
    (x * FX_ONE as f64).round() as i64
}

fn fl(v: i64) -> f64 {
    v as f64 / FX_ONE as f64
}

fn check_round_trip(t: Transfer, x: f64, tol: f64) {
    let v = q(x);
    let there = transfer_encode(t, transfer_decode(t, v));
    assert!(
        (fl(there) - x).abs() < tol,
        "enc(dec({x})) drifted to {} for {t:?}",
        fl(there)
    );
    let back = transfer_decode(t, transfer_encode(t, v));
    assert!(
        (fl(back) - x).abs() < tol,
        "dec(enc({x})) drifted to {} for {t:?}",
        fl(back)
    );
}

fn check_curve(t: Transfer, breakpoints: &[f64]) {
    for i in 0..=1000 {
        check_round_trip(t, i as f64 / 1000.0, 1e-6);
    }
    for &b in breakpoints {
        check_round_trip(t, b, 1e-6);
        check_round_trip(t, b - 1e-5, 1e-6);
        check_round_trip(t, b + 1e-5, 1e-6);
    }
    check_round_trip(t, 0.0, 1e-6);
    check_round_trip(t, 1.0, 1e-6);
}

#[test]
fn srgb_round_trip() {
    check_curve(Transfer::Srgb, &[0.0031308, 0.04045]);
}

#[test]
fn bt709_round_trip() {
    check_curve(Transfer::Bt709, &[0.018, 0.081]);
}

#[test]
fn bt601_round_trip() {
    check_curve(Transfer::Bt601, &[0.018, 0.081]);
}

#[test]
fn bt2020_10bit_round_trip() {
    check_curve(Transfer::Bt2020_10bit, &[0.018, 0.081]);
}

#[test]
fn smpte240_round_trip() {
    check_curve(Transfer::Smpte240, &[0.0228, 0.0912]);
}

#[test]
fn bt470m_round_trip() {
    check_curve(Transfer::Bt470M, &[]);
}

#[test]
fn linear_round_trip() {
    check_curve(Transfer::Linear, &[]);
    assert_eq!(transfer_decode(Transfer::Linear, q(0.25)), q(0.25));
    assert_eq!(transfer_encode(Transfer::Linear, q(0.25)), q(0.25));
}

#[test]
fn scrgb_negative_values_mirror() {
    for t in [Transfer::Srgb, Transfer::Linear] {
        for i in 1..=100 {
            let x = -(i as f64) / 100.0;
            check_round_trip(t, x, 1e-6);
            let enc = transfer_encode(t, q(x));
            let pos = transfer_encode(t, q(-x));
            assert_eq!(enc, -pos, "mirror broken at {x} for {t:?}");
        }
    }
}

#[test]
fn srgb_known_values() {
    // encode(0.5) for sRGB is about 0.735357.
    let e = transfer_encode(Transfer::Srgb, q(0.5));
    assert!((fl(e) - 0.735357).abs() < 1e-4);
    // The linear segment: encode(0.001) = 12.92 * 0.001.
    let lin = transfer_encode(Transfer::Srgb, q(0.001));
    assert!((fl(lin) - 0.01292).abs() < 1e-6);
}
