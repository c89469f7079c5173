//! An exclusively owned RGBA8 raster handle whose every operation either
//! replaces the whole pixel buffer or leaves the handle untouched.

pub mod codec;
pub mod filter;
pub mod handle;
pub mod laws;
pub mod raster;

pub use filter::ResizeFilter;
pub use raster::RasterView;

pub use handle::{
    image_adjust_brightness, image_decode, image_encode, image_flip_horizontal,
    image_flip_vertical, image_free, image_from_rgba, image_get_data, image_get_data_len,
    image_get_height, image_get_width, image_grayscale, image_invert, image_replace_pixels,
    image_resize_with_filter, image_rotate_180, image_rotate_270, image_rotate_90,
    transform_image, ImageHandle, ImageResult, Transform,
};
