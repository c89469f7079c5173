//! The mathematical model of a canonical buffer: row-major RGBA8 bytes with
//! dimensions, and the pixel rearrangements that the handle's operations perform.

use vstd::arithmetic::div_mod::lemma_fundamental_div_mod;
use vstd::arithmetic::div_mod::lemma_fundamental_div_mod_converse;
use vstd::prelude::*;

verus! {

/// Dimensions and bytes of a raster, as seen by contracts.
pub struct RasterView {
    pub width: u32,
    pub height: u32,
    pub pixels: Seq<u8>,
}

impl RasterView {
    /// The buffer holds exactly four bytes for every pixel.
    pub open spec fn wf(self) -> bool {
        self.pixels.len() == self.width * self.height * 4
    }
}

/// Byte offset of channel `c` of the pixel at column `x`, row `y`.
pub open spec fn byte_index(width: int, x: int, y: int, c: int) -> int {
    (y * width + x) * 4 + c
}

/// Column of the pixel that byte `i` belongs to.
pub open spec fn column_of(width: int, i: int) -> int {
    (i / 4) % width
}

/// Row of the pixel that byte `i` belongs to.
pub open spec fn row_of(width: int, i: int) -> int {
    (i / 4) / width
}

/// Channel (0 red, 1 green, 2 blue, 3 alpha) that byte `i` holds.
pub open spec fn channel_of(i: int) -> int {
    i % 4
}

/// Clockwise quarter turn: the result is `height` wide, and its pixel at
/// (x, y) is the source pixel at (y, height - 1 - x).
pub open spec fn rotated_90(v: RasterView) -> RasterView {
    let w = v.width as int;
    let h = v.height as int;
    RasterView {
        width: v.height,
        height: v.width,
        pixels: Seq::new(
            v.pixels.len(),
            |i: int| v.pixels[byte_index(w, row_of(h, i), h - 1 - column_of(h, i), channel_of(i))],
        ),
    }
}

/// Half turn: the pixel at (x, y) is the source pixel at (width - 1 - x, height - 1 - y).
pub open spec fn rotated_180(v: RasterView) -> RasterView {
    let w = v.width as int;
    let h = v.height as int;
    RasterView {
        width: v.width,
        height: v.height,
        pixels: Seq::new(
            v.pixels.len(),
            |i: int|
                v.pixels[byte_index(w, w - 1 - column_of(w, i), h - 1 - row_of(w, i), channel_of(i))],
        ),
    }
}

/// Three clockwise quarter turns: the result is `height` wide, and its pixel
/// at (x, y) is the source pixel at (width - 1 - y, x).
pub open spec fn rotated_270(v: RasterView) -> RasterView {
    let w = v.width as int;
    let h = v.height as int;
    RasterView {
        width: v.height,
        height: v.width,
        pixels: Seq::new(
            v.pixels.len(),
            |i: int| v.pixels[byte_index(w, w - 1 - row_of(h, i), column_of(h, i), channel_of(i))],
        ),
    }
}

/// Mirror left to right: the pixel at (x, y) is the source pixel at (width - 1 - x, y).
pub open spec fn flipped_horizontal(v: RasterView) -> RasterView {
    let w = v.width as int;
    RasterView {
        width: v.width,
        height: v.height,
        pixels: Seq::new(
            v.pixels.len(),
            |i: int| v.pixels[byte_index(w, w - 1 - column_of(w, i), row_of(w, i), channel_of(i))],
        ),
    }
}

/// Mirror top to bottom: the pixel at (x, y) is the source pixel at (x, height - 1 - y).
pub open spec fn flipped_vertical(v: RasterView) -> RasterView {
    let w = v.width as int;
    let h = v.height as int;
    RasterView {
        width: v.width,
        height: v.height,
        pixels: Seq::new(
            v.pixels.len(),
            |i: int| v.pixels[byte_index(w, column_of(w, i), h - 1 - row_of(w, i), channel_of(i))],
        ),
    }
}

/// Each colour channel becomes 255 minus itself; alpha is kept.
pub open spec fn inverted(v: RasterView) -> RasterView {
    RasterView {
        width: v.width,
        height: v.height,
        pixels: Seq::new(
            v.pixels.len(),
            |i: int|
                if channel_of(i) == 3 {
                    v.pixels[i]
                } else {
                    (255 - v.pixels[i]) as u8
                },
        ),
    }
}

/// `delta` added to each colour channel, clamped to 0..=255; alpha is kept.
pub open spec fn brightened(v: RasterView, delta: int) -> RasterView {
    RasterView {
        width: v.width,
        height: v.height,
        pixels: Seq::new(
            v.pixels.len(),
            |i: int|
                if channel_of(i) == 3 {
                    v.pixels[i]
                } else {
                    clamp_channel(v.pixels[i] + delta)
                },
        ),
    }
}

/// A channel value saturated to the range of a byte.
pub open spec fn clamp_channel(n: int) -> u8 {
    if n < 0 {
        0
    } else if n > 255 {
        255
    } else {
        n as u8
    }
}

/// Byte `i` of a `width` by `height` buffer lies in a pixel inside the raster.
pub proof fn lemma_split_index(width: int, height: int, i: int)
    requires
        width >= 0,
        height >= 0,
        0 <= i < width * height * 4,
    ensures
        width > 0,
        height > 0,
        0 <= channel_of(i) < 4,
        0 <= column_of(width, i) < width,
        0 <= row_of(width, i) < height,
        i == byte_index(width, column_of(width, i), row_of(width, i), channel_of(i)),
{
    assert(width > 0 && height > 0) by (nonlinear_arith)
        requires
            width >= 0,
            height >= 0,
            0 <= i < width * height * 4,
    ;
    let p = i / 4;
    lemma_fundamental_div_mod(i, 4);
    lemma_fundamental_div_mod(p, width);
    let x = p % width;
    let y = p / width;
    assert(0 <= x < width);
    assert(0 <= p < width * height) by (nonlinear_arith)
        requires
            i == 4 * p + i % 4,
            0 <= i % 4 < 4,
            0 <= i < width * height * 4,
    ;
    assert(0 <= y < height) by (nonlinear_arith)
        requires
            p == width * y + x,
            0 <= x < width,
            0 <= p < width * height,
            width > 0,
    ;
    assert(i == (y * width + x) * 4 + i % 4) by (nonlinear_arith)
        requires
            i == 4 * p + i % 4,
            p == width * y + x,
    ;
}

/// A pixel inside the raster has its bytes inside the buffer, and they split
/// back into the same column, row and channel.
pub proof fn lemma_join_index(width: int, height: int, x: int, y: int, c: int)
    requires
        0 <= x < width,
        0 <= y < height,
        0 <= c < 4,
    ensures
        0 <= byte_index(width, x, y, c) < width * height * 4,
        channel_of(byte_index(width, x, y, c)) == c,
        column_of(width, byte_index(width, x, y, c)) == x,
        row_of(width, byte_index(width, x, y, c)) == y,
{
    let p = y * width + x;
    let i = p * 4 + c;
    lemma_fundamental_div_mod_converse(i, 4, p, c);
    lemma_fundamental_div_mod_converse(p, width, y, x);
    assert(0 <= i < width * height * 4) by (nonlinear_arith)
        requires
            0 <= x < width,
            0 <= y < height,
            0 <= c < 4,
            p == y * width + x,
            i == p * 4 + c,
    ;
}

/// Two clockwise quarter turns make a half turn.
pub proof fn law_rotate_90_twice_is_rotate_180(v: RasterView)
    requires
        v.wf(),
    ensures
        rotated_90(rotated_90(v)) == rotated_180(v),
{
    let w = v.width as int;
    let h = v.height as int;
    let m = rotated_90(v);
    let r = rotated_90(m);
    let e = rotated_180(v);
    assert forall|i: int| 0 <= i < r.pixels.len() implies r.pixels[i] == e.pixels[i] by {
        lemma_split_index(w, h, i);
        let x = column_of(w, i);
        let y = row_of(w, i);
        let c = channel_of(i);
        lemma_join_index(h, w, y, w - 1 - x, c);
        let j = byte_index(h, y, w - 1 - x, c);
        assert(h * w == w * h) by (nonlinear_arith);
        assert(0 <= j < m.pixels.len());
        assert(m.pixels[j] == v.pixels[byte_index(w, w - 1 - x, h - 1 - y, c)]);
    }
    assert(r.pixels =~= e.pixels);
}

/// A half turn done twice gives the raster back.
pub proof fn law_rotate_180_twice_is_identity(v: RasterView)
    requires
        v.wf(),
    ensures
        rotated_180(rotated_180(v)) == v,
{
    let w = v.width as int;
    let h = v.height as int;
    let m = rotated_180(v);
    let r = rotated_180(m);
    assert forall|i: int| 0 <= i < r.pixels.len() implies r.pixels[i] == v.pixels[i] by {
        lemma_split_index(w, h, i);
        let x = column_of(w, i);
        let y = row_of(w, i);
        let c = channel_of(i);
        lemma_join_index(w, h, w - 1 - x, h - 1 - y, c);
    }
    assert(r.pixels =~= v.pixels);
}

/// Four clockwise quarter turns give the raster back.
pub proof fn law_rotate_90_four_times_is_identity(v: RasterView)
    requires
        v.wf(),
    ensures
        rotated_90(rotated_90(rotated_90(rotated_90(v)))) == v,
{
    law_rotate_90_twice_is_rotate_180(v);
    let e = rotated_180(v);
    assert(e.wf());
    law_rotate_90_twice_is_rotate_180(e);
    law_rotate_180_twice_is_identity(v);
}

/// A horizontal mirror done twice gives the raster back.
pub proof fn law_flip_horizontal_twice_is_identity(v: RasterView)
    requires
        v.wf(),
    ensures
        flipped_horizontal(flipped_horizontal(v)) == v,
{
    let w = v.width as int;
    let h = v.height as int;
    let m = flipped_horizontal(v);
    let r = flipped_horizontal(m);
    assert forall|i: int| 0 <= i < r.pixels.len() implies r.pixels[i] == v.pixels[i] by {
        lemma_split_index(w, h, i);
        let x = column_of(w, i);
        let y = row_of(w, i);
        let c = channel_of(i);
        lemma_join_index(w, h, w - 1 - x, y, c);
    }
    assert(r.pixels =~= v.pixels);
}

/// Inverting twice gives the raster back.
pub proof fn law_invert_twice_is_identity(v: RasterView)
    ensures
        inverted(inverted(v)) == v,
{
    assert(inverted(inverted(v)).pixels =~= v.pixels);
}

} // verus!
