//! Resampling of an RGB buffer to the size that a character grid needs.
//!
//! The resampling itself is the work of the `fast_image_resize` crate. What
//! this module adds is the shape of the data on both sides: three bytes to
//! the pixel, row by row, and a result of exactly the size asked for.

use vstd::prelude::*;
use vstd::string::StringExecFns;
use fast_image_resize::images::Image;
use fast_image_resize::{FilterType, PixelType, ResizeAlg, ResizeOptions, Resizer};
use crate::error::{AnsiImageError, Result};
use crate::settings::ResizeFilter;

verus! {

/// The number of bytes of an RGB buffer of the given size.
pub open spec fn rgb_len(width: int, height: int) -> int {
    3 * (width * height)
}

/// Resamples an RGB buffer by convolution with the given filter.
///
/// Wraps `Image::from_vec_u8`, `Image::new`, `Resizer::resize` and
/// `Image::into_vec` of `fast_image_resize`. The first refuses a buffer
/// shorter than its size calls for; `into_vec` hands back the buffer that
/// `Image::new` made, which holds three bytes for every pixel of the target.
/// Nothing is claimed of what the bytes are. The two sizes must be such that
/// their byte counts can be computed and allocated.
#[verifier::external_body]
fn resample(
    pixels: Vec<u8>,
    width: u32,
    height: u32,
    target_width: u32,
    target_height: u32,
    filter: ResizeFilter,
) -> (r: core::result::Result<Vec<u8>, String>)
    requires
        rgb_len(width as int, height as int) <= isize::MAX,
        rgb_len(target_width as int, target_height as int) <= isize::MAX,
    ensures
        r matches Ok(out) ==> out@.len() == rgb_len(target_width as int, target_height as int),
        pixels@.len() < rgb_len(width as int, height as int) ==> r is Err,
{
    let kernel = match filter {
        ResizeFilter::Box => FilterType::Box,
        ResizeFilter::Bilinear => FilterType::Bilinear,
        ResizeFilter::Hamming => FilterType::Hamming,
        ResizeFilter::CatmullRom => FilterType::CatmullRom,
        ResizeFilter::Mitchell => FilterType::Mitchell,
        ResizeFilter::Gaussian => FilterType::Gaussian,
        ResizeFilter::Lanczos3 => FilterType::Lanczos3,
    };
    let source = Image::from_vec_u8(width, height, pixels, PixelType::U8x3).map_err(|e| e.to_string())?;
    let mut target = Image::new(target_width, target_height, PixelType::U8x3);
    let options = ResizeOptions::new().resize_alg(ResizeAlg::Convolution(kernel));
    Resizer::new().resize(&source, &mut target, Some(&options)).map_err(|e| e.to_string())?;
    Ok(target.into_vec())
}

/// What a resampling amounts to: the buffer that came back, or a processing
/// error with the description that came back.
pub open spec fn resize_outcome(
    outcome: core::result::Result<Vec<u8>, String>,
    r: Result<Vec<u8>>,
) -> bool {
    match outcome {
        Ok(out) => r == Ok::<Vec<u8>, AnsiImageError>(out),
        Err(m) => r matches Err(AnsiImageError::Processing(d)) && d@ == m@,
    }
}

/// Turns the answer of the resampler into the result of the resize step.
pub fn resized(outcome: core::result::Result<Vec<u8>, String>) -> (r: Result<Vec<u8>>)
    ensures
        resize_outcome(outcome, r),
{
    match outcome {
        Ok(out) => Ok(out),
        Err(m) => Err(AnsiImageError::Processing(m)),
    }
}

/// Whether a buffer of the given size has a byte count that fits in memory.
fn fits_in_memory(width: u32, height: u32) -> (b: bool)
    ensures
        b == (rgb_len(width as int, height as int) <= isize::MAX),
{
    assert(0 <= width * height <= 0xffff_ffff * 0xffff_ffff) by (nonlinear_arith)
        requires
            0 <= width <= 0xffff_ffff,
            0 <= height <= 0xffff_ffff,
    ;
    let n: u128 = 3 * (width as u128 * height as u128);
    n <= isize::MAX as u128
}

/// Resizes an RGB image of `width` by `height` pixels to `target_width` by
/// `target_height` pixels.
///
/// Succeeds only with a buffer of three bytes for every pixel of the target.
/// Fails with a processing error where `pixels` is too short for the source
/// size, where a size is too large for memory, and where the resampler
/// refuses.
pub fn resize_image(
    pixels: Vec<u8>,
    width: u32,
    height: u32,
    target_width: u32,
    target_height: u32,
    filter: ResizeFilter,
) -> (r: Result<Vec<u8>>)
    ensures
        r matches Ok(out) ==> out@.len() == rgb_len(target_width as int, target_height as int),
        r matches Err(e) ==> e is Processing,
        pixels@.len() < rgb_len(width as int, height as int) ==> r is Err,
        rgb_len(width as int, height as int) > isize::MAX ==> r is Err,
        rgb_len(target_width as int, target_height as int) > isize::MAX ==> r is Err,
{
    if !fits_in_memory(width, height) || !fits_in_memory(target_width, target_height) {
        return Err(
            AnsiImageError::Processing(String::from_str("The image is too large to resize.")),
        );
    }
    resized(resample(pixels, width, height, target_width, target_height, filter))
}

} // verus!
