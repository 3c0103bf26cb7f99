//! Geometry of the output pixel buffer: its size, its split into tiles and
//! the image coordinates of every pixel of a tile.

use vstd::arithmetic::div_mod::{
    lemma_fundamental_div_mod, lemma_fundamental_div_mod_converse, lemma_multiply_divide_lt,
};
use vstd::prelude::*;

verus! {

/// Bytes per pixel in the output buffer (8-bit red, green, blue).
pub const COLOR_CHANNELS: usize = 3;

/// Pixels per tile handed to one worker at a time.
pub const CHUNK_PIXELS: usize = 4096;

/// Bytes per full tile.
pub const CHUNK_BYTES: usize = CHUNK_PIXELS * COLOR_CHANNELS;

/// One quantized pixel: red, green and blue, 8 bits each.
pub type OutputColor = [u8; COLOR_CHANNELS];

/// Length in bytes of the buffer of a `width` by `height` image.
pub open spec fn buffer_len_spec(width: int, height: int) -> int {
    width * height * COLOR_CHANNELS
}

/// The buffer length of a `width` by `height` image, or `None` where it does
/// not fit in `usize`.
pub fn buffer_len(width: usize, height: usize) -> (r: Option<usize>)
    ensures
        r == (if buffer_len_spec(width as int, height as int) <= usize::MAX {
            Some(buffer_len_spec(width as int, height as int) as usize)
        } else {
            None::<usize>
        }),
{
    match width.checked_mul(height) {
        Some(pixels) => pixels.checked_mul(COLOR_CHANNELS),
        None => {
            assert(width * height * 3 > usize::MAX) by (nonlinear_arith)
                requires width * height > usize::MAX;
            None
        },
    }
}

/// Row-major index in the buffer of slot `k` of tile `tile`.
pub open spec fn pixel_of(tile: int, k: int) -> int {
    tile * CHUNK_PIXELS + k
}

/// Column and row of pixel `p` of a `width` by `height` image whose buffer
/// starts with the top row: the row is counted from the bottom, so that
/// row 0 is the bottom of the picture.
pub open spec fn position_of(p: int, width: int, height: int) -> (int, int) {
    (p % width, height - 1 - p / width)
}

/// Column and row of slot `k` of tile `tile`.
pub fn pixel_position(tile: usize, k: usize, width: usize, height: usize) -> (r: (usize, usize))
    requires
        k < CHUNK_PIXELS,
        pixel_of(tile as int, k as int) < width * height,
        buffer_len_spec(width as int, height as int) <= usize::MAX,
    ensures
        (r.0 as int, r.1 as int) == position_of(pixel_of(tile as int, k as int), width as int, height as int),
        r.0 < width,
        r.1 < height,
{
    let ghost p = pixel_of(tile as int, k as int);
    proof {
        assert(width > 0) by (nonlinear_arith)
            requires p < width * height, p >= 0, height >= 0;
        lemma_multiply_divide_lt(p, width as int, height as int);
        lemma_fundamental_div_mod(p, width as int);
        assert(p % (width as int) < width) by (nonlinear_arith)
            requires width > 0, p >= 0;
        assert(tile * CHUNK_PIXELS <= p);
    }
    let pixel = tile * CHUNK_PIXELS + k;
    (pixel % width, height - 1 - pixel / width)
}

/// Stores `color` in slot `k` of the bytes of a tile, leaving every other
/// byte as it was.
pub fn write_pixel(tile: &mut [u8], k: usize, color: OutputColor)
    requires
        k * COLOR_CHANNELS + COLOR_CHANNELS <= old(tile)@.len(),
    ensures
        final(tile)@.len() == old(tile)@.len(),
        forall|j: int|
            0 <= j < old(tile)@.len() ==> #[trigger] final(tile)@[j] == if k * COLOR_CHANNELS <= j < k
                * COLOR_CHANNELS + COLOR_CHANNELS {
                color[j - k * COLOR_CHANNELS]
            } else {
                old(tile)@[j]
            },
{
    let base = k * COLOR_CHANNELS;
    tile[base] = color[0];
    tile[base + 1] = color[1];
    tile[base + 2] = color[2];
}

/// Distinct slots, of one tile or of two, lie at distinct positions of the
/// image: workers that fill distinct slots never write the same pixel.
pub proof fn lemma_slots_disjoint(t1: nat, k1: nat, t2: nat, k2: nat, width: nat, height: nat)
    requires
        k1 < CHUNK_PIXELS,
        k2 < CHUNK_PIXELS,
        t1 != t2 || k1 != k2,
        pixel_of(t1 as int, k1 as int) < width * height,
        pixel_of(t2 as int, k2 as int) < width * height,
    ensures
        position_of(pixel_of(t1 as int, k1 as int), width as int, height as int)
            != position_of(pixel_of(t2 as int, k2 as int), width as int, height as int),
{
    let p1 = pixel_of(t1 as int, k1 as int);
    let p2 = pixel_of(t2 as int, k2 as int);
    assert(width > 0) by (nonlinear_arith)
        requires p1 < width * height, p1 >= 0, height >= 0;
    if t1 != t2 {
        lemma_fundamental_div_mod_converse(p1, CHUNK_PIXELS as int, t1 as int, k1 as int);
        lemma_fundamental_div_mod_converse(p2, CHUNK_PIXELS as int, t2 as int, k2 as int);
    }
    assert(p1 != p2);
    lemma_fundamental_div_mod(p1, width as int);
    lemma_fundamental_div_mod(p2, width as int);
}

/// Every position of the image is the position of exactly the slot
/// `p % CHUNK_PIXELS` of tile `p / CHUNK_PIXELS`, where `p` counts the rows
/// from the top: the tiles cover the whole image.
pub proof fn lemma_positions_covered(x: nat, y: nat, width: nat, height: nat)
    requires
        x < width,
        y < height,
    ensures
        ({
            let p = (height - 1 - y) * width + x;
            &&& 0 <= p < width * height
            &&& pixel_of(p / CHUNK_PIXELS as int, p % CHUNK_PIXELS as int) == p
            &&& position_of(p, width as int, height as int) == (x as int, y as int)
        }),
{
    let row = height - 1 - y;
    let p = row * width + x;
    assert(0 <= p < width * height) by (nonlinear_arith)
        requires p == row * width + x, 0 <= row < height, 0 <= x < width;
    lemma_fundamental_div_mod(p, CHUNK_PIXELS as int);
    lemma_fundamental_div_mod_converse(p, width as int, row, x as int);
}

} // verus!
