//! The conversion pipeline: a sample travels from its source color space to
//! the canonical linear representation (CIE XYZ, D65, SDR-relative) and on to
//! the destination space.
//!
//! For an RGB-family source the steps are: inverse differencing (YUV only),
//! per-channel transfer decode, luminance scaling, the primaries matrix, and
//! chromatic adaptation to D65. The destination side applies the inverses in
//! the opposite order, with the final clamping policy of the destination
//! transfer (or of its differencing scheme's legal range). Perceptual spaces
//! (Oklab, CIELAB, CIELUV, CIE UVW) use their own fixed transforms from canonical
//! XYZ, and the cylindrical spaces (HSV, HSL) ride on the sRGB cube, as do the
//! fixed YCC encodings (sYCC over sRGB with Bt.601 differencing, xvYCC over
//! extended-range Bt.709).

use vstd::prelude::*;

use crate::chroma::{adapt, adapt_s, luminance_scale, luminance_scale_s, rgb_to_xyz, rgb_to_xyz_s};
use crate::colorspace::{ColorSpace, Differencing, Luminance, Primaries, Transfer, Whitepoint};
use crate::cylindrical::{
    hsl_to_rgb, hsl_to_rgb_s, hsv_to_rgb, hsv_to_rgb_s, rgb_to_hsl, rgb_to_hsl_s, rgb_to_hsv,
    rgb_to_hsv_s,
};
use crate::diff::{rgb_to_yuv, rgb_to_yuv_s, yuv_to_rgb, yuv_to_rgb_s};
use crate::subtractive::{cmy_to_rgb, cmy_to_rgb_s, rgb_to_cmy, rgb_to_cmy_s};
use crate::fixed::{fx_clamp, fx_clamp_s, fx_div, fx_div_s, fx_mul, fx_mul_s, FX_ONE, FX_SAT};
use crate::matrix::{det_s, mat_inv_s, mat_inverse, mat_vec, mat_vec_s, sample_ok, Mat3, Sample};
use crate::perceptual::{
    lab_to_xyz, lab_to_xyz_s, luv_to_xyz, luv_to_xyz_s, oklab_to_xyz, oklab_to_xyz_s, uvw_to_xyz,
    uvw_to_xyz_s, xyz_to_lab, xyz_to_lab_s, xyz_to_luv, xyz_to_luv_s, xyz_to_oklab, xyz_to_oklab_s,
    xyz_to_uvw, xyz_to_uvw_s,
};
use crate::transfer::{
    encode_clamp, encode_clamp_s, transfer_decode, transfer_decode_s, transfer_encode,
    transfer_encode_s, transfer_supported, transfer_supported_s,
};

verus! {

/// The parameter whose requested value is recognized but not implemented.
#[derive(Debug, Copy, Clone, PartialEq, Eq, Structural)]
pub enum ParameterKind {
    /// A color-space variant whose transform is not implemented.
    ColorSpace,
    /// A transfer function that is declared but not implemented.
    Transfer,
}

/// Why a conversion failed. Errors are returned as values; no conversion path
/// panics or silently substitutes a different standard.
#[derive(Debug, Copy, Clone, PartialEq, Eq, Structural)]
pub enum ConversionError {
    /// A recognized-but-not-implemented standard was requested.
    Unsupported(ParameterKind),
    /// A structurally nonsensical conversion was requested. Reserved for
    /// spaces with no physical meaning, none of which is currently
    /// constructible, so the pipeline never returns it.
    InvalidPairing,
    /// A value left the representable numeric domain: an out-of-range input
    /// sample, or a resolved matrix whose fixed-point determinant vanishes.
    NumericDomain,
}

/// The capability check of a single color space: `None` when every parameter
/// of the space is implemented, otherwise the precise error conversion will
/// return.
pub open spec fn space_check_s(s: ColorSpace) -> Option<ConversionError> {
    match s {
        ColorSpace::Xyz(_) => None,
        ColorSpace::Oklab(_) => None,
        ColorSpace::Lab(_) => None,
        ColorSpace::Luv(_) => None,
        ColorSpace::Uvw(_) => None,
        ColorSpace::Hsv(_) => None,
        ColorSpace::Hsl(_) => None,
        ColorSpace::Sycc(_) => None,
        ColorSpace::Xvycc(_) => None,
        ColorSpace::Cmy(_) => None,
        ColorSpace::Rgb(rgb) => if transfer_supported_s(rgb.transfer) {
            None
        } else {
            Some(ConversionError::Unsupported(ParameterKind::Transfer))
        },
        ColorSpace::Yuv(yuv) => if transfer_supported_s(yuv.transfer) {
            None
        } else {
            Some(ConversionError::Unsupported(ParameterKind::Transfer))
        },
        _ => Some(ConversionError::Unsupported(ParameterKind::ColorSpace)),
    }
}

/// The capability check of a single color space.
pub fn space_check(s: &ColorSpace) -> (r: Option<ConversionError>)
    ensures
        r == space_check_s(*s),
{
    match s {
        ColorSpace::Xyz(_) => None,
        ColorSpace::Oklab(_) => None,
        ColorSpace::Lab(_) => None,
        ColorSpace::Luv(_) => None,
        ColorSpace::Uvw(_) => None,
        ColorSpace::Hsv(_) => None,
        ColorSpace::Hsl(_) => None,
        ColorSpace::Sycc(_) => None,
        ColorSpace::Xvycc(_) => None,
        ColorSpace::Cmy(_) => None,
        ColorSpace::Rgb(rgb) => if transfer_supported(rgb.transfer) {
            None
        } else {
            Some(ConversionError::Unsupported(ParameterKind::Transfer))
        },
        ColorSpace::Yuv(yuv) => if transfer_supported(yuv.transfer) {
            None
        } else {
            Some(ConversionError::Unsupported(ParameterKind::Transfer))
        },
        _ => Some(ConversionError::Unsupported(ParameterKind::ColorSpace)),
    }
}

/// Per-channel transfer decode of a sample.
pub open spec fn decode3_s(t: Transfer, v: Sample) -> Sample {
    Sample {
        c0: transfer_decode_s(t, v.c0 as int) as i64,
        c1: transfer_decode_s(t, v.c1 as int) as i64,
        c2: transfer_decode_s(t, v.c2 as int) as i64,
    }
}

/// Per-channel transfer encode of a sample.
pub open spec fn encode3_s(t: Transfer, v: Sample) -> Sample {
    Sample {
        c0: transfer_encode_s(t, v.c0 as int) as i64,
        c1: transfer_encode_s(t, v.c1 as int) as i64,
        c2: transfer_encode_s(t, v.c2 as int) as i64,
    }
}

/// Per-channel final clamping policy of a destination transfer.
pub open spec fn clamp3_s(t: Transfer, v: Sample) -> Sample {
    Sample {
        c0: encode_clamp_s(t, v.c0 as int) as i64,
        c1: encode_clamp_s(t, v.c1 as int) as i64,
        c2: encode_clamp_s(t, v.c2 as int) as i64,
    }
}

/// Scale a linear sample by the space's reference luminance, into
/// SDR-relative terms.
pub open spec fn scale_lum_s(l: Luminance, v: Sample) -> Sample {
    Sample {
        c0: fx_mul_s(v.c0 as int, luminance_scale_s(l)) as i64,
        c1: fx_mul_s(v.c1 as int, luminance_scale_s(l)) as i64,
        c2: fx_mul_s(v.c2 as int, luminance_scale_s(l)) as i64,
    }
}

/// Divide an SDR-relative linear sample by the space's reference luminance.
pub open spec fn descale_lum_s(l: Luminance, v: Sample) -> Sample {
    Sample {
        c0: fx_div_s(v.c0 as int, luminance_scale_s(l)) as i64,
        c1: fx_div_s(v.c1 as int, luminance_scale_s(l)) as i64,
        c2: fx_div_s(v.c2 as int, luminance_scale_s(l)) as i64,
    }
}

/// A gamma-encoded RGB sample to canonical XYZ: decode, scale to SDR-relative
/// luminance, primaries matrix, chromatic adaptation to D65. `None` exactly
/// when a resolved matrix is degenerate in fixed point.
pub open spec fn rgb_to_canonical_s(
    p: Primaries,
    t: Transfer,
    w: Whitepoint,
    l: Luminance,
    v: Sample,
) -> Option<Sample> {
    let scaled = scale_lum_s(l, decode3_s(t, v));
    match rgb_to_xyz_s(p, w) {
        None => None,
        Some(m) => match adapt_s(w, Whitepoint::D65) {
            None => None,
            Some(a) => Some(mat_vec_s(a, mat_vec_s(m, scaled))),
        },
    }
}

/// Canonical XYZ to a gamma-encoded RGB sample: adaptation from D65, inverse
/// primaries matrix, luminance descale, encode. The final clamping policy is
/// applied by the caller, which knows whether the destination is RGB or YUV.
pub open spec fn canonical_to_rgb_s(
    p: Primaries,
    t: Transfer,
    w: Whitepoint,
    l: Luminance,
    xyz: Sample,
) -> Option<Sample> {
    match adapt_s(Whitepoint::D65, w) {
        None => None,
        Some(a) => match rgb_to_xyz_s(p, w) {
            None => None,
            Some(m) => if det_s(m) == 0 {
                None
            } else {
                let lin = mat_vec_s(mat_inv_s(m), mat_vec_s(a, xyz));
                Some(encode3_s(t, descale_lum_s(l, lin)))
            },
        },
    }
}

/// Clamp every channel onto the unit interval: the cylindrical spaces are
/// reparameterizations of the sRGB cube, so out-of-gamut colors are clipped
/// onto it.
pub open spec fn clamp_unit3_s(v: Sample) -> Sample {
    Sample {
        c0: fx_clamp_s(v.c0 as int, 0, FX_ONE as int) as i64,
        c1: fx_clamp_s(v.c1 as int, 0, FX_ONE as int) as i64,
        c2: fx_clamp_s(v.c2 as int, 0, FX_ONE as int) as i64,
    }
}

/// A sample in its source space to canonical XYZ. Meaningful when the source
/// passes its capability check; `None` exactly when a resolved matrix is
/// degenerate in fixed point.
pub open spec fn to_canonical_s(src: ColorSpace, v: Sample) -> Option<Sample> {
    match src {
        ColorSpace::Xyz(_) => Some(v),
        ColorSpace::Oklab(_) => oklab_to_xyz_s(v),
        ColorSpace::Lab(_) => Some(lab_to_xyz_s(v)),
        ColorSpace::Luv(_) => Some(luv_to_xyz_s(v)),
        ColorSpace::Uvw(_) => Some(uvw_to_xyz_s(v)),
        ColorSpace::Hsv(_) => rgb_to_canonical_s(
            Primaries::Bt709,
            Transfer::Srgb,
            Whitepoint::D65,
            Luminance::Sdr,
            hsv_to_rgb_s(v),
        ),
        ColorSpace::Hsl(_) => rgb_to_canonical_s(
            Primaries::Bt709,
            Transfer::Srgb,
            Whitepoint::D65,
            Luminance::Sdr,
            hsl_to_rgb_s(v),
        ),
        ColorSpace::Cmy(_) => rgb_to_canonical_s(
            Primaries::Bt709,
            Transfer::Srgb,
            Whitepoint::D65,
            Luminance::Sdr,
            cmy_to_rgb_s(v),
        ),
        ColorSpace::Sycc(_) => rgb_to_canonical_s(
            Primaries::Bt709,
            Transfer::Srgb,
            Whitepoint::D65,
            Luminance::Sdr,
            yuv_to_rgb_s(Differencing::Bt601, v),
        ),
        ColorSpace::Xvycc(_) => rgb_to_canonical_s(
            Primaries::Bt709,
            Transfer::Bt709,
            Whitepoint::D65,
            Luminance::Sdr,
            yuv_to_rgb_s(Differencing::Bt709, v),
        ),
        ColorSpace::Rgb(rgb) => rgb_to_canonical_s(
            rgb.primaries,
            rgb.transfer,
            rgb.whitepoint,
            rgb.luminance,
            v,
        ),
        ColorSpace::Yuv(yuv) => rgb_to_canonical_s(
            yuv.primary,
            yuv.transfer,
            yuv.whitepoint,
            yuv.luminance,
            yuv_to_rgb_s(yuv.differencing, v),
        ),
        _ => None,
    }
}

/// Canonical XYZ to a sample of the destination space. Meaningful when the
/// destination passes its capability check.
pub open spec fn from_canonical_s(dst: ColorSpace, xyz: Sample) -> Option<Sample> {
    match dst {
        ColorSpace::Xyz(_) => Some(xyz),
        ColorSpace::Oklab(_) => Some(xyz_to_oklab_s(xyz)),
        ColorSpace::Lab(_) => Some(xyz_to_lab_s(xyz)),
        ColorSpace::Luv(_) => Some(xyz_to_luv_s(xyz)),
        ColorSpace::Uvw(_) => Some(xyz_to_uvw_s(xyz)),
        ColorSpace::Hsv(_) => match canonical_to_rgb_s(
            Primaries::Bt709,
            Transfer::Srgb,
            Whitepoint::D65,
            Luminance::Sdr,
            xyz,
        ) {
            None => None,
            Some(e) => Some(rgb_to_hsv_s(clamp_unit3_s(e))),
        },
        ColorSpace::Hsl(_) => match canonical_to_rgb_s(
            Primaries::Bt709,
            Transfer::Srgb,
            Whitepoint::D65,
            Luminance::Sdr,
            xyz,
        ) {
            None => None,
            Some(e) => Some(rgb_to_hsl_s(clamp_unit3_s(e))),
        },
        ColorSpace::Cmy(_) => match canonical_to_rgb_s(
            Primaries::Bt709,
            Transfer::Srgb,
            Whitepoint::D65,
            Luminance::Sdr,
            xyz,
        ) {
            None => None,
            Some(e) => Some(rgb_to_cmy_s(e)),
        },
        ColorSpace::Sycc(_) => match canonical_to_rgb_s(
            Primaries::Bt709,
            Transfer::Srgb,
            Whitepoint::D65,
            Luminance::Sdr,
            xyz,
        ) {
            None => None,
            Some(e) => Some(rgb_to_yuv_s(Differencing::Bt601, e)),
        },
        ColorSpace::Xvycc(_) => match canonical_to_rgb_s(
            Primaries::Bt709,
            Transfer::Bt709,
            Whitepoint::D65,
            Luminance::Sdr,
            xyz,
        ) {
            None => None,
            Some(e) => Some(rgb_to_yuv_s(Differencing::Bt709, e)),
        },
        ColorSpace::Rgb(rgb) => match canonical_to_rgb_s(
            rgb.primaries,
            rgb.transfer,
            rgb.whitepoint,
            rgb.luminance,
            xyz,
        ) {
            None => None,
            Some(e) => Some(clamp3_s(rgb.transfer, e)),
        },
        ColorSpace::Yuv(yuv) => match canonical_to_rgb_s(
            yuv.primary,
            yuv.transfer,
            yuv.whitepoint,
            yuv.luminance,
            xyz,
        ) {
            None => None,
            Some(e) => Some(rgb_to_yuv_s(yuv.differencing, e)),
        },
        _ => None,
    }
}

/// What `convert` returns: the capability checks of both sides in order, the
/// sample-domain check, the exact identity short-circuit, and otherwise the
/// two halves of the pipeline through canonical XYZ.
pub open spec fn convert_s(src: ColorSpace, dst: ColorSpace, v: Sample) -> Result<
    Sample,
    ConversionError,
> {
    if space_check_s(src) is Some {
        Err(space_check_s(src)->0)
    } else if space_check_s(dst) is Some {
        Err(space_check_s(dst)->0)
    } else if !sample_ok(v) {
        Err(ConversionError::NumericDomain)
    } else if src == dst {
        Ok(v)
    } else {
        match to_canonical_s(src, v) {
            None => Err(ConversionError::NumericDomain),
            Some(xyz) => match from_canonical_s(dst, xyz) {
                None => Err(ConversionError::NumericDomain),
                Some(out) => Ok(out),
            },
        }
    }
}

/// Whether all three channels are well-formed fixed-point values.
pub fn sample_well_formed(v: &Sample) -> (r: bool)
    ensures
        r == sample_ok(*v),
{
    -FX_SAT <= v.c0 && v.c0 <= FX_SAT && -FX_SAT <= v.c1 && v.c1 <= FX_SAT && -FX_SAT <= v.c2
        && v.c2 <= FX_SAT
}

/// Clamp every channel onto the unit interval.
fn clamp_unit3(v: &Sample) -> (r: Sample)
    ensures
        r == clamp_unit3_s(*v),
        sample_ok(r),
{
    Sample {
        c0: fx_clamp(v.c0, 0, FX_ONE),
        c1: fx_clamp(v.c1, 0, FX_ONE),
        c2: fx_clamp(v.c2, 0, FX_ONE),
    }
}

/// A sample in its source space to canonical XYZ.
pub fn to_canonical(src: &ColorSpace, v: &Sample) -> (r: Option<Sample>)
    requires
        space_check_s(*src) is None,
        sample_ok(*v),
    ensures
        r == to_canonical_s(*src, *v),
        r is Some ==> sample_ok(r->0),
{
    match src {
        ColorSpace::Xyz(_) => Some(*v),
        ColorSpace::Oklab(_) => oklab_to_xyz(v),
        ColorSpace::Lab(_) => Some(lab_to_xyz(v)),
        ColorSpace::Luv(_) => Some(luv_to_xyz(v)),
        ColorSpace::Uvw(_) => Some(uvw_to_xyz(v)),
        ColorSpace::Hsv(_) => rgb_to_canonical(
            Primaries::Bt709,
            Transfer::Srgb,
            Whitepoint::D65,
            Luminance::Sdr,
            &hsv_to_rgb(v),
        ),
        ColorSpace::Hsl(_) => rgb_to_canonical(
            Primaries::Bt709,
            Transfer::Srgb,
            Whitepoint::D65,
            Luminance::Sdr,
            &hsl_to_rgb(v),
        ),
        ColorSpace::Cmy(_) => rgb_to_canonical(
            Primaries::Bt709,
            Transfer::Srgb,
            Whitepoint::D65,
            Luminance::Sdr,
            &cmy_to_rgb(v),
        ),
        ColorSpace::Sycc(_) => rgb_to_canonical(
            Primaries::Bt709,
            Transfer::Srgb,
            Whitepoint::D65,
            Luminance::Sdr,
            &yuv_to_rgb(Differencing::Bt601, v),
        ),
        ColorSpace::Xvycc(_) => rgb_to_canonical(
            Primaries::Bt709,
            Transfer::Bt709,
            Whitepoint::D65,
            Luminance::Sdr,
            &yuv_to_rgb(Differencing::Bt709, v),
        ),
        ColorSpace::Rgb(rgb) => rgb_to_canonical(
            rgb.primaries,
            rgb.transfer,
            rgb.whitepoint,
            rgb.luminance,
            v,
        ),
        ColorSpace::Yuv(yuv) => rgb_to_canonical(
            yuv.primary,
            yuv.transfer,
            yuv.whitepoint,
            yuv.luminance,
            &yuv_to_rgb(yuv.differencing, v),
        ),
        _ => None,
    }
}

/// Canonical XYZ to a sample of the destination space.
pub fn from_canonical(dst: &ColorSpace, xyz: &Sample) -> (r: Option<Sample>)
    requires
        space_check_s(*dst) is None,
        sample_ok(*xyz),
    ensures
        r == from_canonical_s(*dst, *xyz),
        r is Some ==> sample_ok(r->0),
{
    match dst {
        ColorSpace::Xyz(_) => Some(*xyz),
        ColorSpace::Oklab(_) => Some(xyz_to_oklab(xyz)),
        ColorSpace::Lab(_) => Some(xyz_to_lab(xyz)),
        ColorSpace::Luv(_) => Some(xyz_to_luv(xyz)),
        ColorSpace::Uvw(_) => Some(xyz_to_uvw(xyz)),
        ColorSpace::Hsv(_) => match canonical_to_rgb(
            Primaries::Bt709,
            Transfer::Srgb,
            Whitepoint::D65,
            Luminance::Sdr,
            xyz,
        ) {
            None => None,
            Some(e) => Some(rgb_to_hsv(&clamp_unit3(&e))),
        },
        ColorSpace::Hsl(_) => match canonical_to_rgb(
            Primaries::Bt709,
            Transfer::Srgb,
            Whitepoint::D65,
            Luminance::Sdr,
            xyz,
        ) {
            None => None,
            Some(e) => Some(rgb_to_hsl(&clamp_unit3(&e))),
        },
        ColorSpace::Cmy(_) => match canonical_to_rgb(
            Primaries::Bt709,
            Transfer::Srgb,
            Whitepoint::D65,
            Luminance::Sdr,
            xyz,
        ) {
            None => None,
            Some(e) => Some(rgb_to_cmy(&e)),
        },
        ColorSpace::Sycc(_) => match canonical_to_rgb(
            Primaries::Bt709,
            Transfer::Srgb,
            Whitepoint::D65,
            Luminance::Sdr,
            xyz,
        ) {
            None => None,
            Some(e) => Some(rgb_to_yuv(Differencing::Bt601, &e)),
        },
        ColorSpace::Xvycc(_) => match canonical_to_rgb(
            Primaries::Bt709,
            Transfer::Bt709,
            Whitepoint::D65,
            Luminance::Sdr,
            xyz,
        ) {
            None => None,
            Some(e) => Some(rgb_to_yuv(Differencing::Bt709, &e)),
        },
        ColorSpace::Rgb(rgb) => match canonical_to_rgb(
            rgb.primaries,
            rgb.transfer,
            rgb.whitepoint,
            rgb.luminance,
            xyz,
        ) {
            None => None,
            Some(e) => Some(
                Sample {
                    c0: encode_clamp(rgb.transfer, e.c0),
                    c1: encode_clamp(rgb.transfer, e.c1),
                    c2: encode_clamp(rgb.transfer, e.c2),
                },
            ),
        },
        ColorSpace::Yuv(yuv) => match canonical_to_rgb(
            yuv.primary,
            yuv.transfer,
            yuv.whitepoint,
            yuv.luminance,
            xyz,
        ) {
            None => None,
            Some(e) => Some(rgb_to_yuv(yuv.differencing, &e)),
        },
        _ => None,
    }
}

/// A gamma-encoded RGB sample to canonical XYZ.
fn rgb_to_canonical(p: Primaries, t: Transfer, w: Whitepoint, l: Luminance, v: &Sample) -> (r:
    Option<Sample>)
    requires
        transfer_supported_s(t),
        sample_ok(*v),
    ensures
        r == rgb_to_canonical_s(p, t, w, l, *v),
        r is Some ==> sample_ok(r->0),
{
    let lum: i64 = luminance_scale(l);
    let scaled: Sample = Sample {
        c0: fx_mul(transfer_decode(t, v.c0), lum),
        c1: fx_mul(transfer_decode(t, v.c1), lum),
        c2: fx_mul(transfer_decode(t, v.c2), lum),
    };
    match rgb_to_xyz(p, w) {
        None => None,
        Some(m) => match adapt(w, Whitepoint::D65) {
            None => None,
            Some(a) => Some(mat_vec(&a, &mat_vec(&m, &scaled))),
        },
    }
}

/// Canonical XYZ to a gamma-encoded RGB sample, before the final clamping
/// policy.
fn canonical_to_rgb(p: Primaries, t: Transfer, w: Whitepoint, l: Luminance, xyz: &Sample) -> (r:
    Option<Sample>)
    requires
        transfer_supported_s(t),
        sample_ok(*xyz),
    ensures
        r == canonical_to_rgb_s(p, t, w, l, *xyz),
        r is Some ==> sample_ok(r->0),
{
    match adapt(Whitepoint::D65, w) {
        None => None,
        Some(a) => match rgb_to_xyz(p, w) {
            None => None,
            Some(m) => match mat_inverse(&m) {
                None => None,
                Some(mi) => {
                    let lum: i64 = luminance_scale(l);
                    let lin: Sample = mat_vec(&mi, &mat_vec(&a, xyz));
                    Some(
                        Sample {
                            c0: transfer_encode(t, fx_div(lin.c0, lum)),
                            c1: transfer_encode(t, fx_div(lin.c1, lum)),
                            c2: transfer_encode(t, fx_div(lin.c2, lum)),
                        },
                    )
                },
            },
        },
    }
}

/// Convert a sample from one color space to another through the canonical
/// linear representation.
///
/// The result is `Ok` exactly when both spaces pass their capability checks,
/// the sample is in the representable domain, and no resolved matrix is
/// degenerate; converting a space to itself returns the sample unchanged,
/// exactly.
pub fn convert(src: ColorSpace, dst: ColorSpace, sample: Sample) -> (r: Result<
    Sample,
    ConversionError,
>)
    ensures
        r == convert_s(src, dst, sample),
        r matches Ok(out) ==> sample_ok(out),
        r is Ok <==> space_check_s(src) is None && space_check_s(dst) is None && sample_ok(sample)
            && (src == dst || (to_canonical_s(src, sample) matches Some(xyz)
            && from_canonical_s(dst, xyz) is Some)),
{
    if let Some(e) = space_check(&src) {
        return Err(e);
    }
    if let Some(e) = space_check(&dst) {
        return Err(e);
    }
    if !sample_well_formed(&sample) {
        return Err(ConversionError::NumericDomain);
    }
    if src == dst {
        return Ok(sample);
    }
    match to_canonical(&src, &sample) {
        None => Err(ConversionError::NumericDomain),
        Some(xyz) => match from_canonical(&dst, &xyz) {
            None => Err(ConversionError::NumericDomain),
            Some(out) => Ok(out),
        },
    }
}

/// Luminance rescaling is exactly inverse for the whole-number luminance
/// ratios: scaling a linear sample into SDR-relative terms and dividing the
/// reference back out returns the sample unchanged for the Sdr, DciP3 and Hdr
/// references, wherever the scaled value stays representable (the bound here
/// covers the largest ratio). The AdobeRgb reference is not a whole multiple
/// of one, so it rounds instead.
pub proof fn lemma_lum_rescale_exact(l: Luminance, v: Sample)
    requires
        l != Luminance::AdobeRgb,
        crate::fixed::mag(v.c0 as int) <= 90071992547409,
        crate::fixed::mag(v.c1 as int) <= 90071992547409,
        crate::fixed::mag(v.c2 as int) <= 90071992547409,
    ensures
        descale_lum_s(l, scale_lum_s(l, v)) == v,
{
    let k: int = match l {
        Luminance::Sdr => 1,
        Luminance::DciP3 => 10,
        _ => 100,
    };
    assert(luminance_scale_s(l) == k * (FX_ONE as int));
    crate::fixed::lemma_scale_descale_exact(v.c0 as int, k);
    crate::fixed::lemma_scale_descale_exact(v.c1 as int, k);
    crate::fixed::lemma_scale_descale_exact(v.c2 as int, k);
}

/// Identity conversion: converting a supported space to itself returns the
/// sample unchanged, exactly — no adaptation, no matrix drift.
pub proof fn lemma_convert_identity(s: ColorSpace, v: Sample)
    requires
        space_check_s(s) is None,
        sample_ok(v),
    ensures
        convert_s(s, s, v) == Ok::<Sample, ConversionError>(v),
{
}

/// An unsupported transfer on either side of a conversion is rejected with an
/// `Unsupported` error, never a numeric result.
pub proof fn lemma_convert_rejects_unsupported_transfer(
    src: ColorSpace,
    dst: ColorSpace,
    v: Sample,
)
    requires
        (src matches ColorSpace::Rgb(rgb) && !transfer_supported_s(rgb.transfer)) || (
        src matches ColorSpace::Yuv(yuv) && !transfer_supported_s(yuv.transfer)) || (
        dst matches ColorSpace::Rgb(rgb) && !transfer_supported_s(rgb.transfer)) || (
        dst matches ColorSpace::Yuv(yuv) && !transfer_supported_s(yuv.transfer)),
    ensures
        convert_s(src, dst, v) matches Err(e) && e matches ConversionError::Unsupported(_),
{
}

} // verus!
