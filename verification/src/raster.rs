//! The decoded image, as the `image` crate holds it, and the three calls the
//! pipeline makes into that crate. Nothing in this module is proved: each
//! contract restates what the crate's source shows.

use image::imageops::FilterType;
use image::DynamicImage;
use image::GenericImageView;
use vstd::prelude::*;

verus! {

/// `image::DynamicImage`, a decoded pixel grid of any channel layout. Its
/// pixels are not visible to the verifier.
#[verifier::external_type_specification]
#[verifier::external_body]
pub struct ExDynamicImage(image::DynamicImage);

/// Width and height of an image, in pixels: what
/// `GenericImageView::dimensions` returns for it.
pub uninterp spec fn image_dimensions(img: DynamicImage) -> (u32, u32);

/// Width of an image, in pixels.
pub open spec fn image_width(img: DynamicImage) -> nat {
    image_dimensions(img).0 as nat
}

/// Height of an image, in pixels.
pub open spec fn image_height(img: DynamicImage) -> nat {
    image_dimensions(img).1 as nat
}

/// Calls `GenericImageView::dimensions` on the image: the width and the
/// height of the pixel grid it holds.
#[verifier::external_body]
pub(crate) fn dimensions(img: &DynamicImage) -> (dims: (u32, u32))
    ensures
        dims == image_dimensions(*img),
{
    img.dimensions()
}

/// Calls `DynamicImage::to_luma8` and hands out the one channel of every
/// pixel of the grayscale copy, in the order of `ImageBuffer::pixels`: rows
/// from the top, each from the left. The copy has the dimensions of the
/// image, so there is one byte per pixel. The bytes themselves are not
/// stated: the crate weighs the colour channels in floating point, with a
/// fused multiply-add where the target has one, so the last bit of a
/// luminance can differ between machines.
#[verifier::external_body]
pub(crate) fn luma_bytes(img: &DynamicImage) -> (luma: Vec<u8>)
    ensures
        luma@.len() == image_width(*img) * image_height(*img),
{
    img.to_luma8().pixels().map(|p| p.0[0]).collect()
}

/// Largest number of bytes that one pixel takes in any layout of the `image`
/// crate: four channels of 32-bit floats.
pub const MAX_PIXEL_BYTES: usize = 16;

/// Largest width or height, in pixels, that the resampling filter is used
/// on. The `image` crate computes the position of each sample in 32-bit
/// floats, which hold every half-pixel position exactly up to this size.
/// Beyond it a position can be off by whole pixels, the window of the filter
/// can miss every source pixel, and the crate then panics on weights that it
/// cannot normalise.
pub const MAX_SIDE: u32 = 0x80_0000;

/// Whether a grid of `width` by `height` pixels fits in one allocation
/// whatever its pixel layout.
pub open spec fn grid_fits(width: nat, height: nat) -> bool {
    MAX_PIXEL_BYTES * width * height <= isize::MAX
}

/// Calls `DynamicImage::resize_exact` with the Lanczos filter of window 3.
/// The result has exactly the dimensions asked for. Its pixels are not
/// stated: the filter is computed in floating point, with a sine whose last
/// bit the platform decides. The crate resamples the rows first, into a
/// buffer of float pixels as wide as the source and as high as the result,
/// and panics when a buffer would be larger than a vector can be: the
/// precondition keeps both buffers within that limit, and all four sides
/// within `MAX_SIDE`.
#[verifier::external_body]
pub(crate) fn resize_exact_lanczos3(img: &DynamicImage, width: u32, height: u32) -> (out:
    DynamicImage)
    requires
        image_width(*img) <= MAX_SIDE,
        image_height(*img) <= MAX_SIDE,
        width <= MAX_SIDE,
        height <= MAX_SIDE,
        grid_fits(image_width(*img), height as nat),
        grid_fits(width as nat, height as nat),
    ensures
        image_dimensions(out) == (width, height),
{
    img.resize_exact(width, height, FilterType::Lanczos3)
}

} // verus!
