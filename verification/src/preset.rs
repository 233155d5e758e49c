//! Preset Colorspace constants for colorspaces with parameters such as [`RgbColorSpace`]

use vstd::prelude::*;

use crate::colorspace::{Luminance, Primaries, RgbColorSpace, Transfer, Whitepoint};

verus! {

/// The sRGB color space: Bt.709 primaries, the sRGB transfer, D65 whitepoint
/// and SDR reference luminance.
pub fn srgb() -> (r: RgbColorSpace)
    ensures
        r.primaries == Primaries::Bt709,
        r.transfer == Transfer::Srgb,
        r.whitepoint == Whitepoint::D65,
        r.luminance == Luminance::Sdr,
{
    RgbColorSpace {
        primaries: Primaries::Bt709,
        transfer: Transfer::Srgb,
        whitepoint: Whitepoint::D65,
        luminance: Luminance::Sdr,
    }
}

} // verus!
