//! The image handle: an exclusively owned canonical buffer with its
//! dimensions, created from raw or encoded bytes, mutated only by whole
//! replacement through the transform pipeline, and released by consuming it.
//! An absent handle (`None`) stands for a null reference at the boundary.

use crate::codec::{
    brighten_rgba, decode_rgba, decoded, encode_rgba, encoded, flip_horizontal_rgba,
    flip_vertical_rgba, grayscale_pixels, grayscale_rgba, invert_rgba, raster, resize_rgba,
    resized, rotate_180_rgba, rotate_270_rgba, rotate_90_rgba,
};
use crate::filter::ResizeFilter;
use crate::raster::{
    brightened, clamp_channel, flipped_horizontal, flipped_vertical, inverted, rotated_180,
    rotated_270, rotated_90, RasterView,
};
use vstd::prelude::*;

verus! {

/// Result code of an effectful operation.
#[derive(Clone, Copy, Debug, PartialEq, Eq, Structural)]
pub enum ImageResult {
    Success,
    ErrorInvalidPath,
    ErrorInvalidHandle,
    ErrorLoadFailed,
    ErrorSaveFailed,
    ErrorAllocation,
    ErrorUnsupportedFormat,
}

impl ImageResult {
    /// The numeric code of the result at the boundary.
    pub open spec fn spec_code(self) -> u32 {
        match self {
            ImageResult::Success => 0,
            ImageResult::ErrorInvalidPath => 1,
            ImageResult::ErrorInvalidHandle => 2,
            ImageResult::ErrorLoadFailed => 3,
            ImageResult::ErrorSaveFailed => 4,
            ImageResult::ErrorAllocation => 5,
            ImageResult::ErrorUnsupportedFormat => 6,
        }
    }

    /// The numeric code of the result at the boundary.
    pub fn code(self) -> (r: u32)
        ensures
            r == self.spec_code(),
    {
        match self {
            ImageResult::Success => 0,
            ImageResult::ErrorInvalidPath => 1,
            ImageResult::ErrorInvalidHandle => 2,
            ImageResult::ErrorLoadFailed => 3,
            ImageResult::ErrorSaveFailed => 4,
            ImageResult::ErrorAllocation => 5,
            ImageResult::ErrorUnsupportedFormat => 6,
        }
    }
}

/// An owned RGBA8 raster: dimensions and a row-major buffer of four bytes per
/// pixel. An empty buffer means the handle holds no image.
pub struct ImageHandle {
    width: u32,
    height: u32,
    data: Vec<u8>,
}

impl View for ImageHandle {
    type V = RasterView;

    closed spec fn view(&self) -> RasterView {
        RasterView { width: self.width, height: self.height, pixels: self.data@ }
    }
}

/// A pixel operation that the transform pipeline applies.
#[derive(Clone, Copy, Debug, PartialEq, Eq, Structural)]
pub enum Transform {
    Rotate90,
    Rotate180,
    Rotate270,
    FlipHorizontal,
    FlipVertical,
    Resize { width: u32, height: u32, filter: ResizeFilter },
    Brighten(i32),
    Grayscale,
    Invert,
}

/// The raster that an operation turns `v` into.
pub open spec fn transformed(v: RasterView, op: Transform) -> RasterView {
    match op {
        Transform::Rotate90 => rotated_90(v),
        Transform::Rotate180 => rotated_180(v),
        Transform::Rotate270 => rotated_270(v),
        Transform::FlipHorizontal => flipped_horizontal(v),
        Transform::FlipVertical => flipped_vertical(v),
        Transform::Resize { width, height, filter } => resized(
            v.width,
            v.height,
            v.pixels,
            width,
            height,
            filter,
        ),
        Transform::Brighten(delta) => brightened(v, delta as int),
        Transform::Grayscale => RasterView {
            width: v.width,
            height: v.height,
            pixels: grayscale_pixels(v.width, v.height, v.pixels),
        },
        Transform::Invert => inverted(v),
    }
}

/// A raster that holds an image: a present buffer of exactly four bytes per pixel.
pub open spec fn holds_image(v: RasterView) -> bool {
    v.pixels.len() > 0 && v.wf()
}

/// The raster behind a possibly absent handle.
pub open spec fn view_of(handle: Option<ImageHandle>) -> Option<RasterView> {
    match handle {
        Some(h) => Some(h@),
        None => None,
    }
}

/// A handle is present and holds an image.
pub open spec fn ready(handle: Option<ImageHandle>) -> bool {
    match handle {
        Some(h) => holds_image(h@),
        None => false,
    }
}

/// What a mutating call owes: on a ready handle, success and the raster
/// replaced by the operation's result; otherwise an invalid-handle code and
/// the handle untouched.
pub open spec fn transform_done(
    before: Option<ImageHandle>,
    after: Option<ImageHandle>,
    r: ImageResult,
    op: Transform,
) -> bool {
    if ready(before) {
        r == ImageResult::Success && view_of(after) == Some(
            transformed(before.unwrap()@, op),
        )
    } else {
        r == ImageResult::ErrorInvalidHandle && after == before
    }
}

/// The handle that a raw buffer yields: present bytes of exactly four per
/// pixel with both dimensions positive, copied; otherwise none.
pub open spec fn from_rgba_result(data: Option<Seq<u8>>, width: u32, height: u32) -> Option<
    RasterView,
> {
    match data {
        Some(bytes) => if width > 0 && height > 0 && bytes.len() == width * height * 4 {
            Some(raster(width, height, bytes))
        } else {
            None
        },
        None => None,
    }
}

/// Width reported for a possibly absent handle.
pub open spec fn width_of(v: Option<RasterView>) -> u32 {
    match v {
        Some(r) => r.width,
        None => 0,
    }
}

/// Height reported for a possibly absent handle.
pub open spec fn height_of(v: Option<RasterView>) -> u32 {
    match v {
        Some(r) => r.height,
        None => 0,
    }
}

/// Buffer length reported for a possibly absent handle.
pub open spec fn data_len_of(v: Option<RasterView>) -> nat {
    match v {
        Some(r) => r.pixels.len(),
        None => 0,
    }
}

/// Number of bytes of a `width` by `height` RGBA8 buffer.
fn expected_len(width: u32, height: u32) -> (r: u128)
    ensures
        r == width * height * 4,
{
    let w = width as u128;
    let h = height as u128;
    assert(w * h * 4 <= 0xffff_ffff_ffff_ffff_ffff_ffff_ffff_ffffu128) by (nonlinear_arith)
        requires
            w <= 0xffff_ffffu128,
            h <= 0xffff_ffffu128,
            w >= 0,
            h >= 0,
    ;
    w * h * 4
}

/// Whether `len` bytes are exactly a `width` by `height` RGBA8 buffer.
fn fits(width: u32, height: u32, len: usize) -> (r: bool)
    ensures
        r == (len == width * height * 4),
{
    expected_len(width, height) == len as u128
}

/// An owned copy of a caller's buffer; the caller's memory is not retained.
fn copy_bytes(bytes: &[u8]) -> (r: Vec<u8>)
    ensures
        r@ == bytes@,
{
    let mut out: Vec<u8> = Vec::with_capacity(bytes.len());
    let mut i: usize = 0;
    while i < bytes.len()
        invariant
            i <= bytes@.len(),
            out@ == bytes@.subrange(0, i as int),
        decreases bytes@.len() - i,
    {
        out.push(bytes[i]);
        i = i + 1;
        assert(out@ =~= bytes@.subrange(0, i as int));
    }
    assert(out@ =~= bytes@);
    out
}

/// Wraps a canonical buffer in a new handle.
fn create_image_handle(width: u32, height: u32, pixels: Vec<u8>) -> (r: ImageHandle)
    ensures
        r@ == raster(width, height, pixels@),
{
    ImageHandle { width, height, data: pixels }
}

/// A copy of the handle's buffer, where it holds an image.
fn handle_to_image(handle: &ImageHandle) -> (r: Option<Vec<u8>>)
    ensures
        match r {
            Some(p) => holds_image(handle@) && p@ == handle@.pixels,
            None => !holds_image(handle@),
        },
{
    if handle.data.len() == 0 || !fits(handle.width, handle.height, handle.data.len()) {
        return None;
    }
    let copy = handle.data.clone();
    assert(copy@ =~= handle.data@);
    Some(copy)
}

/// Installs a new canonical buffer and its dimensions in one step; the
/// previous buffer is released as it is replaced.
fn update_handle_from_image(handle: &mut ImageHandle, width: u32, height: u32, pixels: Vec<u8>) -> (r:
    ImageResult)
    ensures
        r == ImageResult::Success,
        final(handle)@ == raster(width, height, pixels@),
{
    handle.width = width;
    handle.height = height;
    handle.data = pixels;
    ImageResult::Success
}

/// A brightening by more than 255 saturates every colour channel, as 255 does.
proof fn lemma_brighten_saturates(v: RasterView, delta: int)
    requires
        delta >= 255,
    ensures
        brightened(v, delta) == brightened(v, 255),
{
    assert(brightened(v, delta).pixels =~= brightened(v, 255).pixels) by {
        assert forall|i: int| 0 <= i < v.pixels.len() implies clamp_channel(v.pixels[i] + delta)
            == clamp_channel(v.pixels[i] + 255) by {}
    }
}

/// Applies an operation to a canonical buffer through the `image` crate.
fn apply_transform(width: u32, height: u32, pixels: Vec<u8>, op: Transform) -> (r: (
    u32,
    u32,
    Vec<u8>,
))
    requires
        raster(width, height, pixels@).wf(),
    ensures
        raster(r.0, r.1, r.2@) == transformed(raster(width, height, pixels@), op),
{
    match op {
        Transform::Rotate90 => rotate_90_rgba(width, height, pixels),
        Transform::Rotate180 => rotate_180_rgba(width, height, pixels),
        Transform::Rotate270 => rotate_270_rgba(width, height, pixels),
        Transform::FlipHorizontal => flip_horizontal_rgba(width, height, pixels),
        Transform::FlipVertical => flip_vertical_rgba(width, height, pixels),
        Transform::Resize { width: w, height: h, filter } => resize_rgba(
            width,
            height,
            pixels,
            w,
            h,
            filter,
        ),
        Transform::Brighten(delta) => {
            if delta > 255 {
                proof {
                    lemma_brighten_saturates(raster(width, height, pixels@), delta as int);
                }
                brighten_rgba(width, height, pixels, 255)
            } else {
                brighten_rgba(width, height, pixels, delta)
            }
        },
        Transform::Grayscale => grayscale_rgba(width, height, pixels),
        Transform::Invert => invert_rgba(width, height, pixels),
    }
}

/// The pipeline behind every mutating call: check the handle, copy its
/// buffer out, apply the operation, and swap the result in. A handle that is
/// absent or holds no image is left as it was.
pub fn transform_image(handle: &mut Option<ImageHandle>, op: Transform) -> (r: ImageResult)
    ensures
        transform_done(*old(handle), *final(handle), r, op),
{
    match handle {
        Some(h) => {
            let pixels = match handle_to_image(h) {
                Some(p) => p,
                None => return ImageResult::ErrorInvalidHandle,
            };
            let (w, ht, out) = apply_transform(h.width, h.height, pixels, op);
            update_handle_from_image(h, w, ht, out)
        },
        None => ImageResult::ErrorInvalidHandle,
    }
}

/// Creates a handle from a raw RGBA8 buffer, copying it. An absent buffer, a
/// zero dimension or a length other than `width * height * 4` yields none.
pub fn image_from_rgba(data: Option<&[u8]>, width: u32, height: u32) -> (r: Option<ImageHandle>)
    ensures
        view_of(r) == from_rgba_result(
            match data {
                Some(d) => Some(d@),
                None => None,
            },
            width,
            height,
        ),
{
    match data {
        Some(bytes) => {
            if width == 0 || height == 0 || !fits(width, height, bytes.len()) {
                return None;
            }
            let pixels = copy_bytes(bytes);
            Some(create_image_handle(width, height, pixels))
        },
        None => None,
    }
}

/// Creates a handle from encoded bytes, in the format that the extension of
/// `path` names; none where they cannot be decoded.
pub fn image_decode(bytes: &[u8], path: &str) -> (r: Option<ImageHandle>)
    ensures
        view_of(r) == decoded(bytes@, path@),
{
    match decode_rgba(bytes, path) {
        Some((w, h, pixels)) => Some(create_image_handle(w, h, pixels)),
        None => None,
    }
}

/// Encodes the handle's image in the format that the extension of `path`
/// names. An absent handle or one without an image gives an invalid-handle
/// code; a failed encoding gives a save-failed code.
pub fn image_encode(handle: &Option<ImageHandle>, path: &str) -> (r: Result<Vec<u8>, ImageResult>)
    ensures
        !ready(*handle) ==> r == Err::<Vec<u8>, ImageResult>(ImageResult::ErrorInvalidHandle),
        ready(*handle) ==> match encoded(
            handle.unwrap()@.width,
            handle.unwrap()@.height,
            handle.unwrap()@.pixels,
            path@,
        ) {
            Some(b) => r.is_ok() && r.unwrap()@ == b,
            None => r == Err::<Vec<u8>, ImageResult>(ImageResult::ErrorSaveFailed),
        },
{
    match handle {
        Some(h) => {
            if h.data.len() == 0 || !fits(h.width, h.height, h.data.len()) {
                return Err(ImageResult::ErrorInvalidHandle);
            }
            match encode_rgba(h.width, h.height, &h.data, path) {
                Some(b) => Ok(b),
                None => Err(ImageResult::ErrorSaveFailed),
            }
        },
        None => Err(ImageResult::ErrorInvalidHandle),
    }
}

/// Rotates the image 90 degrees clockwise.
pub fn image_rotate_90(handle: &mut Option<ImageHandle>) -> (r: ImageResult)
    ensures
        transform_done(*old(handle), *final(handle), r, Transform::Rotate90),
{
    transform_image(handle, Transform::Rotate90)
}

/// Rotates the image 180 degrees.
pub fn image_rotate_180(handle: &mut Option<ImageHandle>) -> (r: ImageResult)
    ensures
        transform_done(*old(handle), *final(handle), r, Transform::Rotate180),
{
    transform_image(handle, Transform::Rotate180)
}

/// Rotates the image 270 degrees clockwise.
pub fn image_rotate_270(handle: &mut Option<ImageHandle>) -> (r: ImageResult)
    ensures
        transform_done(*old(handle), *final(handle), r, Transform::Rotate270),
{
    transform_image(handle, Transform::Rotate270)
}

/// Mirrors the image left to right.
pub fn image_flip_horizontal(handle: &mut Option<ImageHandle>) -> (r: ImageResult)
    ensures
        transform_done(*old(handle), *final(handle), r, Transform::FlipHorizontal),
{
    transform_image(handle, Transform::FlipHorizontal)
}

/// Mirrors the image top to bottom.
pub fn image_flip_vertical(handle: &mut Option<ImageHandle>) -> (r: ImageResult)
    ensures
        transform_done(*old(handle), *final(handle), r, Transform::FlipVertical),
{
    transform_image(handle, Transform::FlipVertical)
}

/// Resizes the image to fit within `width` by `height`, keeping its aspect
/// ratio, with the kernel that `filter` selects (nearest for unknown codes).
pub fn image_resize_with_filter(
    handle: &mut Option<ImageHandle>,
    width: u32,
    height: u32,
    filter: u32,
) -> (r: ImageResult)
    ensures
        transform_done(
            *old(handle),
            *final(handle),
            r,
            Transform::Resize { width, height, filter: ResizeFilter::spec_from_code(filter) },
        ),
{
    let kernel = ResizeFilter::from_code(filter);
    transform_image(handle, Transform::Resize { width, height, filter: kernel })
}

/// Adds `value` to every colour channel, saturating; alpha is kept. The
/// value is passed through without range checks.
pub fn image_adjust_brightness(handle: &mut Option<ImageHandle>, value: i32) -> (r: ImageResult)
    ensures
        transform_done(*old(handle), *final(handle), r, Transform::Brighten(value)),
{
    transform_image(handle, Transform::Brighten(value))
}

/// Replaces the image by its luma, stored back as RGBA8.
pub fn image_grayscale(handle: &mut Option<ImageHandle>) -> (r: ImageResult)
    ensures
        transform_done(*old(handle), *final(handle), r, Transform::Grayscale),
{
    transform_image(handle, Transform::Grayscale)
}

/// Inverts every colour channel; alpha is kept.
pub fn image_invert(handle: &mut Option<ImageHandle>) -> (r: ImageResult)
    ensures
        transform_done(*old(handle), *final(handle), r, Transform::Invert),
{
    transform_image(handle, Transform::Invert)
}

/// Installs a raster that an operation outside the library computed from the
/// handle's image. An absent handle, one without an image, or a raster whose
/// buffer is not exactly four bytes per pixel gives an invalid-handle code
/// and leaves the handle as it was.
pub fn image_replace_pixels(
    handle: &mut Option<ImageHandle>,
    width: u32,
    height: u32,
    pixels: Vec<u8>,
) -> (r: ImageResult)
    ensures
        ready(*old(handle)) && raster(width, height, pixels@).wf() ==> r == ImageResult::Success
            && view_of(*final(handle)) == Some(raster(width, height, pixels@)),
        !(ready(*old(handle)) && raster(width, height, pixels@).wf()) ==> r
            == ImageResult::ErrorInvalidHandle && *final(handle) == *old(handle),
{
    match handle {
        Some(h) => {
            if h.data.len() == 0 || !fits(h.width, h.height, h.data.len()) || !fits(
                width,
                height,
                pixels.len(),
            ) {
                return ImageResult::ErrorInvalidHandle;
            }
            update_handle_from_image(h, width, height, pixels)
        },
        None => ImageResult::ErrorInvalidHandle,
    }
}

/// Width of the image, or 0 for an absent handle.
pub fn image_get_width(handle: &Option<ImageHandle>) -> (r: u32)
    ensures
        r == width_of(view_of(*handle)),
{
    match handle {
        Some(h) => h.width,
        None => 0,
    }
}

/// Height of the image, or 0 for an absent handle.
pub fn image_get_height(handle: &Option<ImageHandle>) -> (r: u32)
    ensures
        r == height_of(view_of(*handle)),
{
    match handle {
        Some(h) => h.height,
        None => 0,
    }
}

/// The RGBA8 bytes of the image, or none for an absent handle or an absent buffer.
pub fn image_get_data(handle: &Option<ImageHandle>) -> (r: Option<&[u8]>)
    ensures
        match r {
            Some(d) => view_of(*handle) is Some && d@ == handle.unwrap()@.pixels && d@.len() > 0,
            None => data_len_of(view_of(*handle)) == 0,
        },
{
    match handle {
        Some(h) => {
            if h.data.len() == 0 {
                None
            } else {
                Some(h.data.as_slice())
            }
        },
        None => None,
    }
}

/// Length in bytes of the image's buffer, or 0 for an absent handle.
pub fn image_get_data_len(handle: &Option<ImageHandle>) -> (r: usize)
    ensures
        r == data_len_of(view_of(*handle)),
{
    match handle {
        Some(h) => h.data.len(),
        None => 0,
    }
}

/// Releases the handle and its buffer; an absent handle is ignored. Taking
/// the handle by value leaves nothing behind to release twice.
pub fn image_free(handle: Option<ImageHandle>) {
    match handle {
        Some(_released) => {},
        None => {},
    }
}

} // verus!
