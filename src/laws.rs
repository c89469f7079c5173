//! Laws that relate the handle's operations to one another, stated over the
//! rasters that their contracts promise.

use crate::filter::{law_unknown_filter_code_is_nearest, ResizeFilter};
use crate::handle::{
    data_len_of, from_rgba_result, height_of, holds_image, transformed, width_of, Transform,
};
use crate::raster::{
    law_flip_horizontal_twice_is_identity, law_invert_twice_is_identity,
    law_rotate_90_four_times_is_identity, law_rotate_90_twice_is_rotate_180, RasterView,
};
use vstd::prelude::*;

verus! {

/// A handle made from a buffer of `width * height * 4` bytes with positive
/// dimensions reports exactly that width, height and length.
pub proof fn law_from_rgba_reports_dimensions(width: u32, height: u32, bytes: Seq<u8>)
    requires
        width > 0,
        height > 0,
        bytes.len() == width * height * 4,
    ensures
        from_rgba_result(Some(bytes), width, height) is Some,
        width_of(from_rgba_result(Some(bytes), width, height)) == width,
        height_of(from_rgba_result(Some(bytes), width, height)) == height,
        data_len_of(from_rgba_result(Some(bytes), width, height)) == width * height * 4,
{
}

/// A quarter turn keeps a raster holding an image (with its sides swapped).
proof fn lemma_quarter_turn_holds_image(v: RasterView)
    requires
        holds_image(v),
    ensures
        holds_image(transformed(v, Transform::Rotate90)),
{
    assert(v.height * v.width == v.width * v.height) by (nonlinear_arith);
}

/// Rotating a quarter turn clockwise four times, each call succeeding, gives
/// back the same width, height and bytes.
pub proof fn law_rotate_90_four_times(v: RasterView)
    requires
        holds_image(v),
    ensures
        holds_image(transformed(v, Transform::Rotate90)),
        holds_image(transformed(transformed(v, Transform::Rotate90), Transform::Rotate90)),
        holds_image(
            transformed(
                transformed(transformed(v, Transform::Rotate90), Transform::Rotate90),
                Transform::Rotate90,
            ),
        ),
        transformed(
            transformed(
                transformed(transformed(v, Transform::Rotate90), Transform::Rotate90),
                Transform::Rotate90,
            ),
            Transform::Rotate90,
        ) == v,
{
    let a = transformed(v, Transform::Rotate90);
    lemma_quarter_turn_holds_image(v);
    let b = transformed(a, Transform::Rotate90);
    lemma_quarter_turn_holds_image(a);
    lemma_quarter_turn_holds_image(b);
    law_rotate_90_four_times_is_identity(v);
}

/// A half turn equals two quarter turns, the first of which leaves an image
/// for the second.
pub proof fn law_rotate_180_is_rotate_90_twice(v: RasterView)
    requires
        holds_image(v),
    ensures
        holds_image(transformed(v, Transform::Rotate90)),
        transformed(v, Transform::Rotate180) == transformed(
            transformed(v, Transform::Rotate90),
            Transform::Rotate90,
        ),
{
    lemma_quarter_turn_holds_image(v);
    law_rotate_90_twice_is_rotate_180(v);
}

/// Inverting twice gives back the same bytes, the first call leaving an image
/// for the second.
pub proof fn law_invert_twice(v: RasterView)
    requires
        holds_image(v),
    ensures
        holds_image(transformed(v, Transform::Invert)),
        transformed(transformed(v, Transform::Invert), Transform::Invert) == v,
{
    law_invert_twice_is_identity(v);
}

/// Mirroring left to right twice gives back the same bytes, the first call
/// leaving an image for the second.
pub proof fn law_flip_horizontal_twice(v: RasterView)
    requires
        holds_image(v),
    ensures
        holds_image(transformed(v, Transform::FlipHorizontal)),
        transformed(transformed(v, Transform::FlipHorizontal), Transform::FlipHorizontal) == v,
{
    law_flip_horizontal_twice_is_identity(v);
}

/// Resizing with an unknown filter code does what filter code 0 does.
pub proof fn law_resize_unknown_filter_is_nearest(v: RasterView, width: u32, height: u32, code: u32)
    requires
        code > 4,
    ensures
        transformed(
            v,
            Transform::Resize { width, height, filter: ResizeFilter::spec_from_code(code) },
        ) == transformed(
            v,
            Transform::Resize { width, height, filter: ResizeFilter::spec_from_code(0) },
        ),
{
    law_unknown_filter_code_is_nearest(code);
}

} // verus!
