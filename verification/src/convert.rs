//! The conversion of a decoded image: to its luminance, to ASCII art, and
//! both preceded by resampling.

use crate::grid::{rendered_art, renders_grid, LumaGrid, LumaGridView};
use crate::ramp::ramp;
use crate::raster::{dimensions, image_height, image_width, luma_bytes};
use crate::resample::{can_resize, resized_height, try_resize_image};
use image::DynamicImage;
use vstd::prelude::*;

verus! {

/// Converts an image to its grid of luminance bytes, which has the
/// dimensions of the image. How bright a pixel is for its colour is decided
/// by the `image` crate.
pub fn luma_grid(img: &DynamicImage) -> (grid: LumaGrid)
    ensures
        grid@.width == image_width(*img),
        grid@.height == image_height(*img),
        grid@.pixels.len() == image_width(*img) * image_height(*img),
{
    let (width, height): (u32, u32) = dimensions(img);
    let pixels: Vec<u8> = luma_bytes(img);
    LumaGrid::from_image(width, height, pixels)
}

/// Renders an image as ASCII art: one line per row of pixels, one glyph per
/// pixel, each the glyph of the luminance of its pixel.
pub fn image_to_ascci(img: &DynamicImage) -> (art: Vec<String>)
    ensures
        renders_grid(art.deep_view(), image_width(*img), image_height(*img)),
        art@.len() == image_height(*img),
        forall|row: int|
            0 <= row < art@.len() ==> (#[trigger] art@[row])@.len() == image_width(*img),
{
    let grid: LumaGrid = luma_grid(img);
    let art: Vec<String> = grid.to_ascii();
    proof {
        let view = grid@;
        assert(view == LumaGridView {
            width: view.width,
            height: view.height,
            pixels: view.pixels,
        });
    }
    art
}

/// Renders `img` as ASCII art of `width` columns: the image is resampled to
/// that width and to the height that keeps its proportions on screen, and
/// every pixel of the result becomes a glyph. Returns `None` where the image
/// cannot be resampled to that width.
pub fn render(img: &DynamicImage, width: u32) -> (art: Option<Vec<String>>)
    ensures
        art is Some <==> can_resize(*img, width),
        art matches Some(lines) ==> {
            &&& renders_grid(lines.deep_view(), width as nat, resized_height(*img, width))
            &&& lines@.len() == resized_height(*img, width)
            &&& forall|row: int|
                0 <= row < lines@.len() ==> (#[trigger] lines@[row])@.len() == width
            &&& forall|row: int, col: int|
                0 <= row < lines@.len() && 0 <= col < width ==> ramp().contains(
                    #[trigger] lines@[row]@[col],
                )
        },
{
    match try_resize_image(img, width) {
        Some(resized) => {
            let lines: Vec<String> = image_to_ascci(&resized);
            proof {
                let art = lines.deep_view();
                rendered_art(art, width as nat, resized_height(*img, width));
                assert forall|row: int, col: int|
                    0 <= row < lines@.len() && 0 <= col < width implies ramp().contains(
                    #[trigger] lines@[row]@[col],
                ) by {
                    assert(art[row] == lines@[row]@);
                    assert(ramp().contains(art[row][col]));
                }
            }
            Some(lines)
        },
        None => None,
    }
}

} // verus!
