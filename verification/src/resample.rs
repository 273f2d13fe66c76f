//! Resampling an image to a target character width.
//!
//! A monospaced glyph is about two and a half times as tall as it is wide,
//! so a grid of glyphs that is to keep the proportions of the image needs
//! fewer rows than the pixel proportions alone would give.

use crate::raster::{
    dimensions, grid_fits, image_height, image_width, resize_exact_lanczos3, MAX_PIXEL_BYTES,
    MAX_SIDE,
};
use image::DynamicImage;
use vstd::prelude::*;

verus! {

/// The number of rows for `new_width` columns: the real number
/// `new_width * (original_height / original_width) / 2.5`, rounded to the
/// nearest integer, a half rounding up.
pub open spec fn rounded_height(original_width: nat, original_height: nat, new_width: nat) -> nat
    recommends
        original_width > 0,
{
    ((4 * new_width * original_height + 5 * original_width) / (10 * original_width)) as nat
}

/// `rounded_height` is the one integer `h` with
/// `h - 1/2 <= new_width * original_height / (2.5 * original_width) < h + 1/2`,
/// written here without fractions.
pub proof fn rounded_height_is_nearest(
    original_width: nat,
    original_height: nat,
    new_width: nat,
    h: nat,
)
    requires
        original_width > 0,
    ensures
        h == rounded_height(original_width, original_height, new_width) <==> (2 * h - 1) * (5
            * original_width) <= 4 * new_width * original_height < (2 * h + 1) * (5
            * original_width),
{
    let n: int = (4 * new_width * original_height + 5 * original_width) as int;
    let d: int = (10 * original_width) as int;
    let q: int = n / d;
    // With these names the claim reads: h == q <==> d * h <= n < d * (h + 1).
    assert((2 * h - 1) * (5 * original_width) == d * h - 5 * original_width && (2 * h + 1) * (5
        * original_width) == d * h + d - 5 * original_width) by (nonlinear_arith)
        requires
            d == 10 * original_width,
    ;
    assert(d * q <= n < d * q + d) by {
        vstd::arithmetic::div_mod::lemma_fundamental_div_mod(n, d);
        vstd::arithmetic::div_mod::lemma_mod_bound(n, d);
    }
    if h < q {
        assert(d * h + d <= d * q) by (nonlinear_arith)
            requires
                h + 1 <= q,
                d > 0,
        ;
    } else if h > q {
        assert(d * q + d <= d * h) by (nonlinear_arith)
            requires
                q + 1 <= h,
                d > 0,
        ;
    }
}

/// Computes `rounded_height` in 128 bits, where it cannot overflow.
fn exact_height(original_width: u32, original_height: u32, new_width: u32) -> (rows: u128)
    requires
        original_width > 0,
    ensures
        rows == rounded_height(original_width as nat, original_height as nat, new_width as nat),
{
    let w: u128 = new_width as u128;
    let oh: u128 = original_height as u128;
    let ow: u128 = original_width as u128;
    assert(4 * w * oh <= 4 * 0xffff_ffff * 0xffff_ffff) by (nonlinear_arith)
        requires
            w <= 0xffff_ffff,
            oh <= 0xffff_ffff,
    ;
    (4 * w * oh + 5 * ow) / (10 * ow)
}

/// Computes the number of rows for `new_width` columns of an image of
/// `original_width` by `original_height` pixels. There is none for an image
/// without width, which has no proportions, nor where the number is beyond
/// the range of `u32`.
pub fn target_height(original_width: u32, original_height: u32, new_width: u32) -> (height: Option<
    u32,
>)
    ensures
        height is Some <==> original_width > 0 && rounded_height(
            original_width as nat,
            original_height as nat,
            new_width as nat,
        ) <= u32::MAX,
        height matches Some(h) ==> h == rounded_height(
            original_width as nat,
            original_height as nat,
            new_width as nat,
        ),
{
    if original_width == 0 {
        return None;
    }
    let rows: u128 = exact_height(original_width, original_height, new_width);
    if rows > u32::MAX as u128 {
        None
    } else {
        Some(rows as u32)
    }
}

/// The number of rows that `img` is given at `new_width` columns.
pub open spec fn resized_height(img: DynamicImage, new_width: u32) -> nat {
    rounded_height(image_width(img), image_height(img), new_width as nat)
}

/// Whether `img` can be resampled to `new_width` columns: it has a width to
/// take proportions from, no side of it or of the result is longer than
/// `MAX_SIDE`, and neither the result nor the buffer between the two passes
/// of the filter is larger than one allocation can be.
pub open spec fn can_resize(img: DynamicImage, new_width: u32) -> bool {
    &&& 0 < image_width(img) <= MAX_SIDE
    &&& image_height(img) <= MAX_SIDE
    &&& new_width <= MAX_SIDE
    &&& resized_height(img, new_width) <= MAX_SIDE
    &&& grid_fits(image_width(img), resized_height(img, new_width))
    &&& grid_fits(new_width as nat, resized_height(img, new_width))
}

/// Resamples `img` to exactly `new_width` columns and the number of rows
/// that keeps its proportions on screen.
pub fn resize_image(img: &DynamicImage, new_width: u32) -> (resized: DynamicImage)
    requires
        can_resize(*img, new_width),
    ensures
        image_width(resized) == new_width,
        image_height(resized) == resized_height(*img, new_width),
{
    let (original_width, original_height): (u32, u32) = dimensions(img);
    let new_height: u128 = exact_height(original_width, original_height, new_width);
    resize_exact_lanczos3(img, new_width, new_height as u32)
}

/// Tells whether a grid of `width` by `height` pixels fits in one allocation.
fn fits(width: u32, height: u32) -> (b: bool)
    ensures
        b == grid_fits(width as nat, height as nat),
{
    let w: u128 = width as u128;
    let h: u128 = height as u128;
    assert(w * h <= 0xffff_ffff * 0xffff_ffff) by (nonlinear_arith)
        requires
            w <= 0xffff_ffff,
            h <= 0xffff_ffff,
    ;
    assert(MAX_PIXEL_BYTES * (width as nat) * (height as nat) == 16 * (w * h)) by (nonlinear_arith)
        requires
            MAX_PIXEL_BYTES == 16,
            w == width,
            h == height,
    ;
    16 * (w * h) <= isize::MAX as u128
}

/// Tells whether `img` can be resampled to `new_width` columns.
pub fn is_resizable(img: &DynamicImage, new_width: u32) -> (b: bool)
    ensures
        b == can_resize(*img, new_width),
{
    let (original_width, original_height): (u32, u32) = dimensions(img);
    if original_width == 0 || original_width > MAX_SIDE || original_height > MAX_SIDE || new_width
        > MAX_SIDE {
        return false;
    }
    let new_height: u128 = exact_height(original_width, original_height, new_width);
    if new_height > MAX_SIDE as u128 {
        return false;
    }
    fits(original_width, new_height as u32) && fits(new_width, new_height as u32)
}

/// Resamples `img` as `resize_image` does, where that is possible, and
/// returns `None` where it is not.
pub fn try_resize_image(img: &DynamicImage, new_width: u32) -> (resized: Option<DynamicImage>)
    ensures
        resized is Some <==> can_resize(*img, new_width),
        resized matches Some(out) ==> {
            &&& image_width(out) == new_width
            &&& image_height(out) == resized_height(*img, new_width)
        },
{
    if is_resizable(img, new_width) {
        Some(resize_image(img, new_width))
    } else {
        None
    }
}

} // verus!
