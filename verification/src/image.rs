//! Image container types: a pixel grid with its metadata. Only the shape of
//! the container lives here; all color work goes through the conversion
//! pipeline.

use vstd::prelude::*;

use crate::colorspace::ColorSpace;

verus! {

/// in row-column format
pub type Pixels<P> = Vec<Vec<P>>;

/// An Image
pub struct Image<P> {
    pixels: Pixels<P>,
    metadata: ImageMetadata,
}

impl<P> Image<P> {
    /// The number of pixel columns the grid holds.
    pub closed spec fn spec_width(&self) -> nat {
        self.pixels@.len()
    }

    /// The number of pixel rows the grid holds: the length of the first
    /// column, or zero when there are no columns.
    pub closed spec fn spec_height(&self) -> nat {
        if self.pixels@.len() == 0 {
            0
        } else {
            self.pixels@[0]@.len()
        }
    }

    pub fn width(&self) -> (r: usize)
        ensures
            r == self.spec_width(),
    {
        self.pixels.len()
    }

    pub fn height(&self) -> (r: usize)
        ensures
            r == self.spec_height(),
    {
        if self.pixels.is_empty() {
            0
        } else {
            self.pixels[0].len()
        }
    }
}

/// Image metadata.
pub struct ImageMetadata {
    color_space: Option<ColorSpace>,
    alpha_type: Option<AlphaType>,
    original_file_size: Option<u32>,
    original_image_dimensions: Option<(u32, u32)>,
    file_modification_timestamp: Option<u64>,
    decoder_info: Option<DecoderInfo>,
}

/// The type of alpha compositing.
///
/// <https://en.wikipedia.org/wiki/Alpha_compositing>
pub enum AlphaType {
    Straight,
    Premultiplied,
}

/// Decoder information.
pub struct DecoderInfo {
    file_format: ImageFileFormat,
    decoder_name: String,
    decoder_version: String,
}

/// Image file formats.
///
/// <https://en.wikipedia.org/wiki/Image_file_format>
pub enum ImageFileFormat {
    Png,
    Jpeg,
}

} // verus!
