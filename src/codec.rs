//! The calls into the `image` crate: decoding, encoding and pixel operations
//! on canonical RGBA8 buffers. Each takes and returns plain dimensions and bytes.

use crate::filter::ResizeFilter;
use crate::raster::{
    brightened, flipped_horizontal, flipped_vertical, inverted, rotated_180, rotated_270,
    rotated_90, RasterView,
};
use image::imageops::FilterType;
use image::{DynamicImage, ImageFormat, RgbaImage};
use vstd::prelude::*;

verus! {

/// The raster made of plain dimensions and a byte sequence.
pub open spec fn raster(width: u32, height: u32, pixels: Seq<u8>) -> RasterView {
    RasterView { width, height, pixels }
}

/// The RGBA8 raster that `image` decodes from `bytes` in the format that the
/// extension of `path` names, or `None` where it cannot.
pub uninterp spec fn decoded(bytes: Seq<u8>, path: Seq<char>) -> Option<RasterView>;

/// The bytes that `image` encodes a raster into, in the format that the
/// extension of `path` names, or `None` where it cannot.
pub uninterp spec fn encoded(width: u32, height: u32, pixels: Seq<u8>, path: Seq<char>) -> Option<
    Seq<u8>,
>;

/// The raster that `image` resizes to fit within `new_width` by `new_height`,
/// keeping the aspect ratio.
pub uninterp spec fn resized(
    width: u32,
    height: u32,
    pixels: Seq<u8>,
    new_width: u32,
    new_height: u32,
    filter: ResizeFilter,
) -> RasterView;

/// The bytes of the luma image that `image` computes, expanded back to RGBA8.
pub uninterp spec fn grayscale_pixels(width: u32, height: u32, pixels: Seq<u8>) -> Seq<u8>;

/// Relies on `ImageFormat::from_path` and `image::load_from_memory_with_format`
/// followed by `DynamicImage::into_rgba8`: the result depends on the bytes and
/// the path alone, and an RGBA8 buffer has four bytes per pixel.
#[verifier::external_body]
pub(crate) fn decode_rgba(bytes: &[u8], path: &str) -> (r: Option<(u32, u32, Vec<u8>)>)
    ensures
        match r {
            Some((w, h, p)) => decoded(bytes@, path@) == Some(raster(w, h, p@)) && raster(
                w,
                h,
                p@,
            ).wf(),
            None => decoded(bytes@, path@).is_none(),
        },
{
    let format = ImageFormat::from_path(path).ok()?;
    let img = image::load_from_memory_with_format(bytes, format).ok()?.into_rgba8();
    Some((img.width(), img.height(), img.into_raw()))
}

/// Relies on `ImageFormat::from_path` and `DynamicImage::write_to`: the bytes
/// depend on the raster and the path alone.
#[verifier::external_body]
pub(crate) fn encode_rgba(width: u32, height: u32, pixels: &Vec<u8>, path: &str) -> (r: Option<
    Vec<u8>,
>)
    requires
        raster(width, height, pixels@).wf(),
    ensures
        match r {
            Some(b) => encoded(width, height, pixels@, path@) == Some(b@),
            None => encoded(width, height, pixels@, path@).is_none(),
        },
{
    let format = ImageFormat::from_path(path).ok()?;
    let img = DynamicImage::ImageRgba8(RgbaImage::from_raw(width, height, pixels.clone())?);
    let mut out = std::io::Cursor::new(Vec::new());
    img.write_to(&mut out, format).ok()?;
    Some(out.into_inner())
}

/// Relies on `DynamicImage::rotate90`, which puts source pixel (x, y) at
/// (height - 1 - y, x) of a `height` by `width` buffer.
#[verifier::external_body]
pub(crate) fn rotate_90_rgba(width: u32, height: u32, pixels: Vec<u8>) -> (r: (u32, u32, Vec<u8>))
    requires
        raster(width, height, pixels@).wf(),
    ensures
        raster(r.0, r.1, r.2@) == rotated_90(raster(width, height, pixels@)),
{
    let img = DynamicImage::ImageRgba8(RgbaImage::from_raw(width, height, pixels).unwrap());
    let out = img.rotate90().into_rgba8();
    (out.width(), out.height(), out.into_raw())
}

/// Relies on `DynamicImage::rotate180`, which puts source pixel (x, y) at
/// (width - 1 - x, height - 1 - y).
#[verifier::external_body]
pub(crate) fn rotate_180_rgba(width: u32, height: u32, pixels: Vec<u8>) -> (r: (u32, u32, Vec<u8>))
    requires
        raster(width, height, pixels@).wf(),
    ensures
        raster(r.0, r.1, r.2@) == rotated_180(raster(width, height, pixels@)),
{
    let img = DynamicImage::ImageRgba8(RgbaImage::from_raw(width, height, pixels).unwrap());
    let out = img.rotate180().into_rgba8();
    (out.width(), out.height(), out.into_raw())
}

/// Relies on `DynamicImage::rotate270`, which puts source pixel (x, y) at
/// (y, width - 1 - x) of a `height` by `width` buffer.
#[verifier::external_body]
pub(crate) fn rotate_270_rgba(width: u32, height: u32, pixels: Vec<u8>) -> (r: (u32, u32, Vec<u8>))
    requires
        raster(width, height, pixels@).wf(),
    ensures
        raster(r.0, r.1, r.2@) == rotated_270(raster(width, height, pixels@)),
{
    let img = DynamicImage::ImageRgba8(RgbaImage::from_raw(width, height, pixels).unwrap());
    let out = img.rotate270().into_rgba8();
    (out.width(), out.height(), out.into_raw())
}

/// Relies on `DynamicImage::fliph`, which puts source pixel (x, y) at (width - 1 - x, y).
#[verifier::external_body]
pub(crate) fn flip_horizontal_rgba(width: u32, height: u32, pixels: Vec<u8>) -> (r: (
    u32,
    u32,
    Vec<u8>,
))
    requires
        raster(width, height, pixels@).wf(),
    ensures
        raster(r.0, r.1, r.2@) == flipped_horizontal(raster(width, height, pixels@)),
{
    let img = DynamicImage::ImageRgba8(RgbaImage::from_raw(width, height, pixels).unwrap());
    let out = img.fliph().into_rgba8();
    (out.width(), out.height(), out.into_raw())
}

/// Relies on `DynamicImage::flipv`, which puts source pixel (x, y) at (x, height - 1 - y).
#[verifier::external_body]
pub(crate) fn flip_vertical_rgba(width: u32, height: u32, pixels: Vec<u8>) -> (r: (
    u32,
    u32,
    Vec<u8>,
))
    requires
        raster(width, height, pixels@).wf(),
    ensures
        raster(r.0, r.1, r.2@) == flipped_vertical(raster(width, height, pixels@)),
{
    let img = DynamicImage::ImageRgba8(RgbaImage::from_raw(width, height, pixels).unwrap());
    let out = img.flipv().into_rgba8();
    (out.width(), out.height(), out.into_raw())
}

/// Relies on `DynamicImage::invert`, which for RGBA8 sets each colour channel
/// to 255 minus itself and keeps alpha.
#[verifier::external_body]
pub(crate) fn invert_rgba(width: u32, height: u32, pixels: Vec<u8>) -> (r: (u32, u32, Vec<u8>))
    requires
        raster(width, height, pixels@).wf(),
    ensures
        raster(r.0, r.1, r.2@) == inverted(raster(width, height, pixels@)),
{
    let mut img = DynamicImage::ImageRgba8(RgbaImage::from_raw(width, height, pixels).unwrap());
    img.invert();
    let out = img.into_rgba8();
    (out.width(), out.height(), out.into_raw())
}

/// Relies on `DynamicImage::brighten`, which adds `value` to each colour
/// channel as an `i32`, clamps to 0..=255 and keeps alpha. The sum overflows
/// above `i32::MAX - 255`, so such values are left out.
#[verifier::external_body]
pub(crate) fn brighten_rgba(width: u32, height: u32, pixels: Vec<u8>, value: i32) -> (r: (
    u32,
    u32,
    Vec<u8>,
))
    requires
        raster(width, height, pixels@).wf(),
        value <= i32::MAX - 255,
    ensures
        raster(r.0, r.1, r.2@) == brightened(raster(width, height, pixels@), value as int),
{
    let img = DynamicImage::ImageRgba8(RgbaImage::from_raw(width, height, pixels).unwrap());
    let out = img.brighten(value).into_rgba8();
    (out.width(), out.height(), out.into_raw())
}

/// Relies on `DynamicImage::resize`: the result depends on its arguments
/// alone, is an RGBA8 buffer with four bytes per pixel, and is the source
/// itself where the requested size equals the current one.
#[verifier::external_body]
pub(crate) fn resize_rgba(
    width: u32,
    height: u32,
    pixels: Vec<u8>,
    new_width: u32,
    new_height: u32,
    filter: ResizeFilter,
) -> (r: (u32, u32, Vec<u8>))
    requires
        raster(width, height, pixels@).wf(),
    ensures
        raster(r.0, r.1, r.2@) == resized(width, height, pixels@, new_width, new_height, filter),
        raster(r.0, r.1, r.2@).wf(),
        new_width == width && new_height == height ==> raster(r.0, r.1, r.2@) == raster(
            width,
            height,
            pixels@,
        ),
{
    let kernel = match filter {
        ResizeFilter::Nearest => FilterType::Nearest,
        ResizeFilter::Triangle => FilterType::Triangle,
        ResizeFilter::CatmullRom => FilterType::CatmullRom,
        ResizeFilter::Gaussian => FilterType::Gaussian,
        ResizeFilter::Lanczos3 => FilterType::Lanczos3,
    };
    let img = DynamicImage::ImageRgba8(RgbaImage::from_raw(width, height, pixels).unwrap());
    let out = img.resize(new_width, new_height, kernel).into_rgba8();
    (out.width(), out.height(), out.into_raw())
}

/// Relies on `DynamicImage::to_luma8` and the conversion of the luma image
/// back to RGBA8: the result depends on the raster alone and keeps its size.
#[verifier::external_body]
pub(crate) fn grayscale_rgba(width: u32, height: u32, pixels: Vec<u8>) -> (r: (u32, u32, Vec<u8>))
    requires
        raster(width, height, pixels@).wf(),
    ensures
        r.0 == width,
        r.1 == height,
        r.2@ == grayscale_pixels(width, height, pixels@),
        r.2@.len() == pixels@.len(),
{
    let img = DynamicImage::ImageRgba8(RgbaImage::from_raw(width, height, pixels).unwrap());
    let out = DynamicImage::ImageLuma8(img.to_luma8()).into_rgba8();
    (out.width(), out.height(), out.into_raw())
}

} // verus!
