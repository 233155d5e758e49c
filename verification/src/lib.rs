//! A color-management core: color spaces are described precisely by value
//! types, and samples are converted between any two spaces through a canonical
//! linear intermediate (CIE XYZ relative to the D65 whitepoint and the SDR
//! reference luminance).
//!
//! All channel values are carried as Q32.32 fixed-point numbers (an `i64`
//! holding the real value times `fixed::FX_ONE`), so every numeric step of the
//! pipeline has an exact, stated meaning.

pub mod fixed;

pub mod matrix;

pub mod colorspace;

pub mod transfer;

pub mod chroma;

pub mod diff;

pub mod perceptual;

pub mod cylindrical;

pub mod subtractive;

pub mod convert;

pub mod preset;

pub mod image;

pub use colorspace::ColorSpace;
pub use colorspace::{
    CmyColorSpace, CmykColorSpace, HslColorSpace, HsluvColorSpace, HsvColorSpace, LabColorSpace,
    LuvColorSpace, OklabColorSpace, RgbColorSpace, SyccColorSpace, UvwColorSpace, XvyccColorSpace,
    XyzColorSpace, YcbcrColorSpace, YdbdrColorSpace, YiqColorSpace, YpbprColorSpace, YuvColorSpace,
};
pub use colorspace::{Differencing, Luminance, Primaries, Transfer, Whitepoint};
pub use convert::{convert, ConversionError, ParameterKind};
pub use image::{AlphaType, DecoderInfo, Image, ImageFileFormat, ImageMetadata, Pixels};
pub use matrix::Sample;
pub use preset::srgb;
