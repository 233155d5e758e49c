//! The subtractive CMY color space: the complement of the sRGB cube
//! (Bt.709 primaries, sRGB transfer, D65 whitepoint, SDR luminance). Inputs
//! outside the cube are clamped onto it before complementing.

use vstd::prelude::*;

use crate::fixed::{fx_clamp, fx_clamp_s, fx_sub, FX_ONE};
use crate::matrix::{sample_ok, Sample};

verus! {

/// Gamma-encoded sRGB to CMY: clamp onto the cube and complement each
/// channel.
pub open spec fn rgb_to_cmy_s(v: Sample) -> Sample {
    Sample {
        c0: ((FX_ONE as int) - fx_clamp_s(v.c0 as int, 0, FX_ONE as int)) as i64,
        c1: ((FX_ONE as int) - fx_clamp_s(v.c1 as int, 0, FX_ONE as int)) as i64,
        c2: ((FX_ONE as int) - fx_clamp_s(v.c2 as int, 0, FX_ONE as int)) as i64,
    }
}

/// CMY to gamma-encoded sRGB: clamp onto the cube and complement each
/// channel.
pub open spec fn cmy_to_rgb_s(v: Sample) -> Sample {
    Sample {
        c0: ((FX_ONE as int) - fx_clamp_s(v.c0 as int, 0, FX_ONE as int)) as i64,
        c1: ((FX_ONE as int) - fx_clamp_s(v.c1 as int, 0, FX_ONE as int)) as i64,
        c2: ((FX_ONE as int) - fx_clamp_s(v.c2 as int, 0, FX_ONE as int)) as i64,
    }
}

/// Complementing is an exact involution on the cube: an in-range RGB sample
/// survives the trip into CMY and back unchanged, and likewise a CMY sample
/// through RGB.
pub proof fn lemma_cmy_involution(v: Sample)
    requires
        0 <= v.c0 <= FX_ONE,
        0 <= v.c1 <= FX_ONE,
        0 <= v.c2 <= FX_ONE,
    ensures
        cmy_to_rgb_s(rgb_to_cmy_s(v)) == v,
        rgb_to_cmy_s(cmy_to_rgb_s(v)) == v,
{
}

/// Gamma-encoded sRGB to CMY.
pub fn rgb_to_cmy(v: &Sample) -> (r: Sample)
    requires
        sample_ok(*v),
    ensures
        r == rgb_to_cmy_s(*v),
        sample_ok(r),
{
    Sample {
        c0: fx_sub(FX_ONE, fx_clamp(v.c0, 0, FX_ONE)),
        c1: fx_sub(FX_ONE, fx_clamp(v.c1, 0, FX_ONE)),
        c2: fx_sub(FX_ONE, fx_clamp(v.c2, 0, FX_ONE)),
    }
}

/// CMY to gamma-encoded sRGB.
pub fn cmy_to_rgb(v: &Sample) -> (r: Sample)
    requires
        sample_ok(*v),
    ensures
        r == cmy_to_rgb_s(*v),
        sample_ok(r),
{
    Sample {
        c0: fx_sub(FX_ONE, fx_clamp(v.c0, 0, FX_ONE)),
        c1: fx_sub(FX_ONE, fx_clamp(v.c1, 0, FX_ONE)),
        c2: fx_sub(FX_ONE, fx_clamp(v.c2, 0, FX_ONE)),
    }
}

} // verus!
