//! End-to-end conversion checks: identity conversions, capability rejection,
//! the concrete scenarios, and round trips across pairs of supported spaces.

use colorcore::convert::{ConversionError, ParameterKind};
use colorcore::fixed::FX_ONE;
use colorcore::{
    convert, srgb, CmyColorSpace, CmykColorSpace, ColorSpace, Differencing, HslColorSpace, HsvColorSpace,
    LabColorSpace, Luminance, LuvColorSpace, OklabColorSpace, Primaries, RgbColorSpace, Sample,
    SyccColorSpace, Transfer, UvwColorSpace, Whitepoint, XvyccColorSpace, XyzColorSpace,
    YcbcrColorSpace, YuvColorSpace,
};

fn q(x: f64) -> i64 {
    (x * FX_ONE as f64).round() as i64
}

fn fl(v: i64) -> f64 {
    v as f64 / FX_ONE as f64
}

fn s3(a: f64, b: f64, c: f64) -> Sample {
    Sample { c0: q(a), c1: q(b), c2: q(c) }
}

fn rgb_space(p: Primaries, t: Transfer, w: Whitepoint, l: Luminance) -> ColorSpace {
    ColorSpace::Rgb(RgbColorSpace { primaries: p, transfer: t, whitepoint: w, luminance: l })
}

fn yuv_space(
    p: Primaries,
    w: Whitepoint,
    t: Transfer,
    l: Luminance,
    d: Differencing,
) -> ColorSpace {
    ColorSpace::Yuv(YuvColorSpace {
        primary: p,
        whitepoint: w,
        transfer: t,
        luminance: l,
        differencing: d,
    })
}

fn assert_sample_close(got: Sample, want: (f64, f64, f64), tol: f64) {
    assert!((fl(got.c0) - want.0).abs() < tol, "c0 {} vs {}", fl(got.c0), want.0);
    assert!((fl(got.c1) - want.1).abs() < tol, "c1 {} vs {}", fl(got.c1), want.1);
    assert!((fl(got.c2) - want.2).abs() < tol, "c2 {} vs {}", fl(got.c2), want.2);
}

fn supported_spaces() -> Vec<ColorSpace> {
    vec![
        ColorSpace::Xyz(XyzColorSpace {}),
        ColorSpace::Oklab(OklabColorSpace {}),
        ColorSpace::Lab(LabColorSpace {}),
        ColorSpace::Luv(LuvColorSpace {}),
        ColorSpace::Hsv(HsvColorSpace {}),
        ColorSpace::Hsl(HslColorSpace {}),
        ColorSpace::Sycc(SyccColorSpace {}),
        ColorSpace::Xvycc(XvyccColorSpace {}),
        ColorSpace::Cmy(CmyColorSpace {}),
        ColorSpace::Uvw(UvwColorSpace {}),
        ColorSpace::Rgb(srgb()),
        rgb_space(Primaries::Bt709, Transfer::Linear, Whitepoint::D65, Luminance::Sdr),
        rgb_space(Primaries::Bt2020, Transfer::Bt2020_10bit, Whitepoint::D65, Luminance::Sdr),
        rgb_space(Primaries::Bt601_625, Transfer::Bt601, Whitepoint::D50, Luminance::Sdr),
        yuv_space(
            Primaries::Bt709,
            Whitepoint::D65,
            Transfer::Bt709,
            Luminance::Sdr,
            Differencing::Bt709,
        ),
        yuv_space(
            Primaries::Bt601_525,
            Whitepoint::C,
            Transfer::Bt601,
            Luminance::Sdr,
            Differencing::Bt601,
        ),
    ]
}

#[test]
fn identity_conversion_is_exact() {
    let sample = s3(0.25, 0.5, 0.75);
    let mut spaces = supported_spaces();
    spaces.push(rgb_space(Primaries::Bt709, Transfer::Srgb, Whitepoint::D65, Luminance::Hdr));
    spaces.push(rgb_space(Primaries::Smpte240, Transfer::Smpte240, Whitepoint::E, Luminance::DciP3));
    for s in spaces {
        let out = convert(s, s, sample).expect("identity conversion succeeds");
        assert_eq!(out, sample, "identity drifted for {s:?}");
    }
}

#[test]
fn unsupported_transfer_is_rejected() {
    let sample = s3(0.5, 0.5, 0.5);
    let bad = rgb_space(Primaries::Bt709, Transfer::Bt2100Pq, Whitepoint::D65, Luminance::Sdr);
    let good = ColorSpace::Xyz(XyzColorSpace {});
    assert_eq!(
        convert(bad, good, sample),
        Err(ConversionError::Unsupported(ParameterKind::Transfer))
    );
    assert_eq!(
        convert(good, bad, sample),
        Err(ConversionError::Unsupported(ParameterKind::Transfer))
    );
    assert_eq!(
        convert(bad, bad, sample),
        Err(ConversionError::Unsupported(ParameterKind::Transfer))
    );
}

#[test]
fn every_declared_unsupported_transfer_is_rejected() {
    let sample = s3(0.1, 0.2, 0.3);
    let good = ColorSpace::Xyz(XyzColorSpace {});
    for t in [
        Transfer::Bt2020_12bit,
        Transfer::Smpte2084,
        Transfer::Bt2100Pq,
        Transfer::Bt2100Hlg,
        Transfer::Bt2100Scene,
    ] {
        let bad = rgb_space(Primaries::Bt709, t, Whitepoint::D65, Luminance::Sdr);
        assert_eq!(
            convert(bad, good, sample),
            Err(ConversionError::Unsupported(ParameterKind::Transfer)),
            "{t:?} must be rejected"
        );
        let bad_yuv = yuv_space(
            Primaries::Bt709,
            Whitepoint::D65,
            t,
            Luminance::Sdr,
            Differencing::Bt709,
        );
        assert_eq!(
            convert(good, bad_yuv, sample),
            Err(ConversionError::Unsupported(ParameterKind::Transfer)),
            "{t:?} must be rejected as destination"
        );
    }
}

#[test]
fn unimplemented_space_variants_are_rejected() {
    let sample = s3(0.1, 0.2, 0.3);
    let good = ColorSpace::Xyz(XyzColorSpace {});
    for s in [
        ColorSpace::Cmyk(CmykColorSpace {}),
        ColorSpace::Hsluv(colorcore::HsluvColorSpace {}),
        ColorSpace::Ycbcr(YcbcrColorSpace {}),
    ] {
        assert_eq!(
            convert(s, good, sample),
            Err(ConversionError::Unsupported(ParameterKind::ColorSpace))
        );
        assert_eq!(
            convert(good, s, sample),
            Err(ConversionError::Unsupported(ParameterKind::ColorSpace))
        );
    }
}

#[test]
fn out_of_domain_sample_is_rejected() {
    let good = ColorSpace::Xyz(XyzColorSpace {});
    let dst = ColorSpace::Rgb(srgb());
    let huge = Sample { c0: i64::MAX, c1: 0, c2: 0 };
    assert_eq!(convert(good, dst, huge), Err(ConversionError::NumericDomain));
}

#[test]
fn mid_gray_to_srgb_encoding() {
    // Linear RGB mid-gray, encoded into sRGB, lands near 0.7354.
    let src = rgb_space(Primaries::Bt709, Transfer::Linear, Whitepoint::D65, Luminance::Sdr);
    let dst = ColorSpace::Rgb(srgb());
    let out = convert(src, dst, s3(0.5, 0.5, 0.5)).expect("conversion succeeds");
    assert_sample_close(out, (0.7354, 0.7354, 0.7354), 2e-4);
}

#[test]
fn pure_red_to_xyz() {
    // Bt.709 pure red in XYZ: the first column of the primaries matrix.
    let src = ColorSpace::Rgb(srgb());
    let dst = ColorSpace::Xyz(XyzColorSpace {});
    let out = convert(src, dst, s3(1.0, 0.0, 0.0)).expect("conversion succeeds");
    assert_sample_close(out, (0.4124, 0.2127, 0.0193), 1e-3);
}

#[test]
fn neutral_yuv_to_rgb() {
    // A full-swing Bt.709 YUV sample with zero chroma is a neutral gray.
    let src = yuv_space(
        Primaries::Bt709,
        Whitepoint::D65,
        Transfer::Bt709,
        Luminance::Sdr,
        Differencing::Bt709,
    );
    let dst = rgb_space(Primaries::Bt709, Transfer::Bt709, Whitepoint::D65, Luminance::Sdr);
    let out = convert(src, dst, s3(0.5, 0.0, 0.0)).expect("conversion succeeds");
    assert_sample_close(out, (0.5, 0.5, 0.5), 1e-6);
}

#[test]
fn round_trips_across_all_supported_pairs() {
    // A representative in-gamut sample survives A -> B -> A for every pair of
    // fully-supported spaces. Chroma channels of YUV spaces want a sample
    // near neutral, so a gray-ish color is used.
    let spaces = supported_spaces();
    for (i, &a) in spaces.iter().enumerate() {
        for (j, &b) in spaces.iter().enumerate() {
            if i == j {
                continue;
            }
            let x0 = match a {
                ColorSpace::Yuv(_) => s3(0.5, 0.02, -0.02),
                ColorSpace::Lab(_) => s3(60.0, 5.0, -4.0),
                ColorSpace::Luv(_) => s3(60.0, 8.0, -5.0),
                ColorSpace::Hsv(_) => s3(0.1, 0.5, 0.7),
                ColorSpace::Sycc(_) | ColorSpace::Xvycc(_) => s3(0.5, 0.02, -0.02),
                ColorSpace::Cmy(_) => s3(0.3, 0.5, 0.2),
                ColorSpace::Uvw(_) => s3(-20.0, -5.0, 60.0),
                ColorSpace::Hsl(_) => s3(0.1, 0.4, 0.5),
                ColorSpace::Oklab(_) => s3(0.7, 0.02, -0.02),
                _ => s3(0.45, 0.5, 0.55),
            };
            let there = convert(a, b, x0).expect("forward conversion succeeds");
            let back = convert(b, a, there).expect("backward conversion succeeds");
            let tol = if matches!(a, ColorSpace::Lab(_) | ColorSpace::Luv(_) | ColorSpace::Uvw(_))
            {
                1e-3
            } else {
                1e-5
            };
            assert!(
                (fl(back.c0) - fl(x0.c0)).abs() < tol
                    && (fl(back.c1) - fl(x0.c1)).abs() < tol
                    && (fl(back.c2) - fl(x0.c2)).abs() < tol,
                "round trip drifted for {a:?} <-> {b:?}: {back:?}"
            );
        }
    }
}

#[test]
fn luminance_rescaling_is_inverse() {
    // The same linear color in SDR and HDR referred spaces: HDR relative
    // values are 100 times smaller.
    let sdr = rgb_space(Primaries::Bt709, Transfer::Linear, Whitepoint::D65, Luminance::Sdr);
    let hdr = rgb_space(Primaries::Bt709, Transfer::Linear, Whitepoint::D65, Luminance::Hdr);
    let out = convert(sdr, hdr, s3(0.5, 0.5, 0.5)).expect("conversion succeeds");
    assert_sample_close(out, (0.005, 0.005, 0.005), 1e-7);
    let back = convert(hdr, sdr, out).expect("conversion succeeds");
    assert_sample_close(back, (0.5, 0.5, 0.5), 1e-7);
}

#[test]
fn ycocg_round_trip_is_lossless() {
    let yuv = yuv_space(
        Primaries::Bt709,
        Whitepoint::D65,
        Transfer::Linear,
        Luminance::Sdr,
        Differencing::YCoCg,
    );
    let rgb = rgb_space(Primaries::Bt709, Transfer::Linear, Whitepoint::D65, Luminance::Sdr);
    let x0 = s3(0.5, 0.125, -0.0625);
    let there = convert(yuv, rgb, x0).expect("conversion succeeds");
    let back = convert(rgb, yuv, there).expect("conversion succeeds");
    assert_sample_close(back, (0.5, 0.125, -0.0625), 1e-8);
}

#[test]
fn quantized_yuv_round_trip() {
    let yuv = yuv_space(
        Primaries::Bt601_625,
        Whitepoint::D65,
        Transfer::Bt601,
        Luminance::Sdr,
        Differencing::Bt601Quantized,
    );
    let rgb = rgb_space(Primaries::Bt601_625, Transfer::Bt601, Whitepoint::D65, Luminance::Sdr);
    // A legal quantized sample: luma inside [16/255, 235/255], chroma around
    // the 128/255 midpoint.
    let x0 = s3(0.45, 0.52, 0.48);
    let there = convert(yuv, rgb, x0).expect("conversion succeeds");
    let back = convert(rgb, yuv, there).expect("conversion succeeds");
    assert_sample_close(back, (0.45, 0.52, 0.48), 1e-5);
}

#[test]
fn full_swing_yuv_clamps_chroma() {
    let rgb = rgb_space(Primaries::Bt709, Transfer::Bt709, Whitepoint::D65, Luminance::Sdr);
    let yuv = yuv_space(
        Primaries::Bt709,
        Whitepoint::D65,
        Transfer::Bt709,
        Luminance::Sdr,
        Differencing::Bt709FullSwing,
    );
    let out = convert(rgb, yuv, s3(1.0, 0.0, 0.0)).expect("conversion succeeds");
    assert!(fl(out.c2) <= 0.5 + 1e-9, "V must be clamped to +1/2, got {}", fl(out.c2));
    assert!(fl(out.c0) >= -1e-9 && fl(out.c0) <= 1.0 + 1e-9);
}

#[test]
fn oklab_white_is_unit_lightness() {
    // D65 white in Oklab is L = 1, a = b = 0.
    let xyz = ColorSpace::Xyz(XyzColorSpace {});
    let oklab = ColorSpace::Oklab(OklabColorSpace {});
    let out = convert(xyz, oklab, s3(0.95047, 1.0, 1.08883)).expect("conversion succeeds");
    assert_sample_close(out, (1.0, 0.0, 0.0), 1e-3);
}

#[test]
fn lab_of_mid_xyz() {
    let xyz = ColorSpace::Xyz(XyzColorSpace {});
    let lab = ColorSpace::Lab(LabColorSpace {});
    let out = convert(xyz, lab, s3(0.2, 0.3, 0.4)).expect("conversion succeeds");
    assert_sample_close(out, (61.654, -37.321, -9.353), 1e-2);
}

#[test]
fn luv_of_mid_xyz() {
    let xyz = ColorSpace::Xyz(XyzColorSpace {});
    let luv = ColorSpace::Luv(LuvColorSpace {});
    let out = convert(xyz, luv, s3(0.2, 0.3, 0.4)).expect("conversion succeeds");
    assert_sample_close(out, (61.654, -49.891, -8.583), 1e-2);
    let back = convert(luv, xyz, out).expect("conversion succeeds");
    assert_sample_close(back, (0.2, 0.3, 0.4), 1e-6);
}

#[test]
fn luv_of_black_is_zero() {
    let xyz = ColorSpace::Xyz(XyzColorSpace {});
    let luv = ColorSpace::Luv(LuvColorSpace {});
    let out = convert(xyz, luv, s3(0.0, 0.0, 0.0)).expect("conversion succeeds");
    assert_sample_close(out, (0.0, 0.0, 0.0), 1e-6);
    let back = convert(luv, xyz, s3(0.0, 0.0, 0.0)).expect("conversion succeeds");
    assert_sample_close(back, (0.0, 0.0, 0.0), 1e-9);
}

#[test]
fn uvw_of_mid_xyz() {
    let xyz = ColorSpace::Xyz(XyzColorSpace {});
    let uvw = ColorSpace::Uvw(UvwColorSpace {});
    let out = convert(xyz, uvw, s3(0.2, 0.3, 0.4)).expect("conversion succeeds");
    assert_sample_close(out, (-49.103, -5.632, 60.681), 1e-2);
    let back = convert(uvw, xyz, out).expect("conversion succeeds");
    assert_sample_close(back, (0.2, 0.3, 0.4), 1e-6);
}

#[test]
fn cmy_is_complement_of_srgb() {
    let rgb = ColorSpace::Rgb(srgb());
    let cmy = ColorSpace::Cmy(CmyColorSpace {});
    let out = convert(rgb, cmy, s3(0.6, 0.3, 0.2)).expect("conversion succeeds");
    assert_sample_close(out, (0.4, 0.7, 0.8), 1e-6);
    let back = convert(cmy, rgb, out).expect("conversion succeeds");
    assert_sample_close(back, (0.6, 0.3, 0.2), 1e-6);
}

#[test]
fn sycc_is_bt601_yuv_over_srgb() {
    // sYCC of an sRGB sample equals Bt.601 full-range differencing of it.
    let rgb = ColorSpace::Rgb(srgb());
    let sycc = ColorSpace::Sycc(SyccColorSpace {});
    let yuv = ColorSpace::Yuv(YuvColorSpace {
        primary: Primaries::Bt709,
        whitepoint: Whitepoint::D65,
        transfer: Transfer::Srgb,
        luminance: Luminance::Sdr,
        differencing: Differencing::Bt601,
    });
    let x = s3(0.6, 0.3, 0.2);
    let through_sycc = convert(rgb, sycc, x).expect("conversion succeeds");
    let through_yuv = convert(rgb, yuv, x).expect("conversion succeeds");
    assert_eq!(through_sycc, through_yuv);
}

#[test]
fn xvycc_keeps_extended_range() {
    // An out-of-gamut color (negative red after the matrix) survives into
    // xvYCC: the extended-range encoding does not clamp.
    let xyz = ColorSpace::Xyz(XyzColorSpace {});
    let xv = ColorSpace::Xvycc(XvyccColorSpace {});
    let sample = s3(0.2, 0.5, 0.05);
    let out = convert(xyz, xv, sample).expect("conversion succeeds");
    let back = convert(xv, xyz, out).expect("conversion succeeds");
    assert_sample_close(back, (0.2, 0.5, 0.05), 1e-5);
}

#[test]
fn hsv_of_pure_red() {
    let rgb = ColorSpace::Rgb(srgb());
    let hsv = ColorSpace::Hsv(HsvColorSpace {});
    let out = convert(rgb, hsv, s3(1.0, 0.0, 0.0)).expect("conversion succeeds");
    assert_sample_close(out, (0.0, 1.0, 1.0), 1e-6);
    let back = convert(hsv, rgb, out).expect("conversion succeeds");
    assert_sample_close(back, (1.0, 0.0, 0.0), 1e-6);
}

#[test]
fn hsl_of_pure_blue() {
    let rgb = ColorSpace::Rgb(srgb());
    let hsl = ColorSpace::Hsl(HslColorSpace {});
    let out = convert(rgb, hsl, s3(0.0, 0.0, 1.0)).expect("conversion succeeds");
    // Blue is a 2/3 turn of hue, full saturation, half lightness.
    assert_sample_close(out, (2.0 / 3.0, 1.0, 0.5), 1e-6);
    let back = convert(hsl, rgb, out).expect("conversion succeeds");
    assert_sample_close(back, (0.0, 0.0, 1.0), 1e-6);
}

#[test]
fn destination_clamping_policy() {
    // A Bt.709 destination clamps to [0, 1]; an sRGB destination keeps
    // out-of-range values.
    let xyz = ColorSpace::Xyz(XyzColorSpace {});
    let clamped = rgb_space(Primaries::Bt709, Transfer::Bt709, Whitepoint::D65, Luminance::Sdr);
    let scrgb = ColorSpace::Rgb(srgb());
    // A strongly saturated green, outside the Bt.709 gamut: negative red.
    let sample = s3(0.2, 0.5, 0.05);
    let c = convert(xyz, clamped, sample).expect("conversion succeeds");
    assert!(fl(c.c0) >= 0.0 && fl(c.c0) <= 1.0);
    assert!(fl(c.c1) >= 0.0 && fl(c.c1) <= 1.0);
    assert!(fl(c.c2) >= 0.0 && fl(c.c2) <= 1.0);
    let s = convert(xyz, scrgb, sample).expect("conversion succeeds");
    assert!(fl(s.c0) < 0.0, "sRGB keeps the negative channel, got {}", fl(s.c0));
}

#[test]
fn srgb_preset_matches_construction() {
    let p = srgb();
    assert_eq!(p.primaries, Primaries::Bt709);
    assert_eq!(p.transfer, Transfer::Srgb);
    assert_eq!(p.whitepoint, Whitepoint::D65);
    assert_eq!(p.luminance, Luminance::Sdr);
}
