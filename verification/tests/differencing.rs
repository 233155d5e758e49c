//! Round trips and known values for every YUV differencing scheme, exercised
//! directly on the differencing layer.

use colorcore::diff::{rgb_to_yuv, yuv_to_rgb};
use colorcore::fixed::FX_ONE;
use colorcore::matrix::Sample;
use colorcore::Differencing;

fn q(x: f64) -> i64 {
    (x * FX_ONE as f64).round() as i64
}

fn fl(v: i64) -> f64 {
    v as f64 / FX_ONE as f64
}

fn s3(a: f64, b: f64, c: f64) -> Sample {
    Sample { c0: q(a), c1: q(b), c2: q(c) }
}

const ALL_SCHEMES: [Differencing; 12] = [
    Differencing::Bt407MPal,
    Differencing::Bt407MPalPrecise,
    Differencing::Bt601,
    Differencing::Bt601Quantized,
    Differencing::Bt601FullSwing,
    Differencing::Bt709,
    Differencing::Bt709Quantized,
    Differencing::Bt709FullSwing,
    Differencing::YDbDr,
    Differencing::Bt2020,
    Differencing::Bt2100,
    Differencing::YCoCg,
];

#[test]
fn every_scheme_round_trips_in_gamut_rgb() {
    // An RGB triple close enough to gray stays inside every scheme's legal
    // range, so differencing and undifferencing must invert each other.
    let rgb = s3(0.5, 0.45, 0.55);
    for d in ALL_SCHEMES {
        let yuv = rgb_to_yuv(d, &rgb);
        let back = yuv_to_rgb(d, &yuv);
        for (a, b) in [(back.c0, rgb.c0), (back.c1, rgb.c1), (back.c2, rgb.c2)] {
            assert!(
                (fl(a) - fl(b)).abs() < 1e-6,
                "round trip drifted for {d:?}: {} vs {}",
                fl(a),
                fl(b)
            );
        }
    }
}

#[test]
fn every_scheme_maps_gray_to_zero_chroma() {
    for d in ALL_SCHEMES {
        let yuv = rgb_to_yuv(d, &s3(0.5, 0.5, 0.5));
        let (u0, v0) = match d {
            Differencing::Bt601Quantized | Differencing::Bt709Quantized => {
                (128.0 / 255.0, 128.0 / 255.0)
            }
            _ => (0.0, 0.0),
        };
        assert!((fl(yuv.c1) - u0).abs() < 1e-6, "U of gray for {d:?}: {}", fl(yuv.c1));
        assert!((fl(yuv.c2) - v0).abs() < 1e-6, "V of gray for {d:?}: {}", fl(yuv.c2));
    }
}

#[test]
fn bt601_luma_weights() {
    // Y of pure green under Bt.601 weighting is 0.587.
    let yuv = rgb_to_yuv(Differencing::Bt601, &s3(0.0, 1.0, 0.0));
    assert!((fl(yuv.c0) - 0.587).abs() < 1e-6);
    // And under Bt.709 weighting, 0.7152.
    let yuv = rgb_to_yuv(Differencing::Bt709, &s3(0.0, 1.0, 0.0));
    assert!((fl(yuv.c0) - 0.7152).abs() < 1e-6);
    // And under Bt.2020 weighting, 0.678.
    let yuv = rgb_to_yuv(Differencing::Bt2020, &s3(0.0, 1.0, 0.0));
    assert!((fl(yuv.c0) - 0.678).abs() < 1e-6);
}

#[test]
fn pal_published_and_precise_factors_differ() {
    // The published factors are rounded; the precise variant derives them
    // from the exact excursions, so blue chroma differs slightly.
    let rgb = s3(0.2, 0.3, 0.9);
    let pal = rgb_to_yuv(Differencing::Bt407MPal, &rgb);
    let precise = rgb_to_yuv(Differencing::Bt407MPalPrecise, &rgb);
    assert!(pal.c1 != precise.c1);
    assert!((fl(pal.c1) - fl(precise.c1)).abs() < 1e-2);
}

#[test]
fn ydbdr_uses_secam_excursions() {
    // Db of pure blue: 3.059 * (B - Y) with Y = 0.114.
    let yuv = rgb_to_yuv(Differencing::YDbDr, &s3(0.0, 0.0, 1.0));
    assert!((fl(yuv.c1) - 3.059 * (1.0 - 0.114)).abs() < 1e-5);
}

#[test]
fn ycocg_of_known_color() {
    // (R, G, B) = (1, 1/2, 1/4): Y = 1/4 + 1/4 + 1/16, Co = 3/8, Cg = -3/8
    // + ... computed exactly in dyadic arithmetic.
    let yuv = rgb_to_yuv(Differencing::YCoCg, &s3(1.0, 0.5, 0.25));
    assert_eq!(yuv.c0, q(0.5625));
    assert_eq!(yuv.c1, q(0.375));
    assert_eq!(yuv.c2, q(-0.0625));
    let back = yuv_to_rgb(Differencing::YCoCg, &yuv);
    assert_eq!(back.c0, q(1.0));
    assert_eq!(back.c1, q(0.5));
    assert_eq!(back.c2, q(0.25));
}

#[test]
fn quantized_output_is_always_legal() {
    // Even a wildly out-of-range input lands in the legal quantized ranges.
    let yuv = rgb_to_yuv(Differencing::Bt601Quantized, &s3(900.0, -900.0, 900.0));
    assert!(fl(yuv.c0) >= 16.0 / 255.0 - 1e-9 && fl(yuv.c0) <= 235.0 / 255.0 + 1e-9);
    assert!(fl(yuv.c1) >= 16.0 / 255.0 - 1e-9 && fl(yuv.c1) <= 240.0 / 255.0 + 1e-9);
    assert!(fl(yuv.c2) >= 16.0 / 255.0 - 1e-9 && fl(yuv.c2) <= 240.0 / 255.0 + 1e-9);
}

#[test]
fn full_swing_output_is_always_nominal() {
    let yuv = rgb_to_yuv(Differencing::Bt709FullSwing, &s3(900.0, -900.0, 900.0));
    assert!(fl(yuv.c0) >= -1e-9 && fl(yuv.c0) <= 1.0 + 1e-9);
    assert!(fl(yuv.c1).abs() <= 0.5 + 1e-9);
    assert!(fl(yuv.c2).abs() <= 0.5 + 1e-9);
}
