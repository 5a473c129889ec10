//! The chunk grid: how pixel coordinates map to a chunk and a place in it.
//!
//! An image is cut into square chunks of `CHUNK_DIM` pixels a side, stored
//! row by row; the chunks on the right and bottom edge may reach past the
//! image. Within a chunk the pixels are stored row by row as well.

use vstd::prelude::*;
use vstd::arithmetic::div_mod::lemma_fundamental_div_mod_converse;

verus! {

/// Side of a chunk, in pixels.
pub const CHUNK_DIM: usize = 32;

/// Pixels in a chunk.
pub const CHUNK_AREA: usize = 1024;

/// Chunks needed to cover `extent` pixels in one direction.
pub open spec fn chunks_along(extent: int) -> int {
    (extent + CHUNK_DIM - 1) / (CHUNK_DIM as int)
}

/// Chunks in an image of the given size.
pub open spec fn chunk_count(width: int, height: int) -> int {
    chunks_along(width) * chunks_along(height)
}

/// Index of the chunk that holds pixel `(x, y)` in an image `width` wide.
pub open spec fn chunk_index(width: int, x: int, y: int) -> int {
    (y / (CHUNK_DIM as int)) * chunks_along(width) + x / (CHUNK_DIM as int)
}

/// Place of pixel `(x, y)` within its chunk.
pub open spec fn local_offset(x: int, y: int) -> int {
    (y % (CHUNK_DIM as int)) * CHUNK_DIM + x % (CHUNK_DIM as int)
}

/// Column of the pixel stored at `offset` of chunk `chunk`.
pub open spec fn pixel_x(width: int, chunk: int, offset: int) -> int {
    (chunk % chunks_along(width)) * CHUNK_DIM + offset % (CHUNK_DIM as int)
}

/// Row of the pixel stored at `offset` of chunk `chunk`.
pub open spec fn pixel_y(width: int, chunk: int, offset: int) -> int {
    (chunk / chunks_along(width)) * CHUNK_DIM + offset / (CHUNK_DIM as int)
}

/// A pixel of the image lies in one of the image's chunks, at a place inside
/// that chunk.
pub proof fn lemma_locate_in_bounds(width: int, height: int, x: int, y: int)
    requires
        0 <= x < width,
        0 <= y < height,
    ensures
        0 <= chunk_index(width, x, y) < chunk_count(width, height),
        0 <= local_offset(x, y) < CHUNK_AREA,
        0 <= (y / (CHUNK_DIM as int)) * chunks_along(width) <= chunk_index(width, x, y),
{
    let across = chunks_along(width);
    let down = chunks_along(height);
    let cx = x / (CHUNK_DIM as int);
    let cy = y / (CHUNK_DIM as int);
    assert(0 <= cx < across);
    assert(0 <= cy < down);
    assert(0 <= cy * across && cy * across + across <= down * across) by (nonlinear_arith)
        requires
            0 <= cy < down,
            0 < across,
    ;
}

/// Reading a pixel's place back gives the pixel: the mapping from pixels to
/// places loses nothing.
pub proof fn lemma_place_to_pixel(width: int, x: int, y: int)
    requires
        0 <= x < width,
        0 <= y,
    ensures
        pixel_x(width, chunk_index(width, x, y), local_offset(x, y)) == x,
        pixel_y(width, chunk_index(width, x, y), local_offset(x, y)) == y,
{
    let across = chunks_along(width);
    let cx = x / (CHUNK_DIM as int);
    let cy = y / (CHUNK_DIM as int);
    assert(0 <= cx < across);
    lemma_fundamental_div_mod_converse(chunk_index(width, x, y), across, cy, cx);
}

/// A place whose column lies in the image is the place of the pixel that it
/// reads back as.
pub proof fn lemma_pixel_to_place(width: int, chunk: int, offset: int)
    requires
        0 < width,
        0 <= chunk,
        0 <= offset < CHUNK_AREA,
        pixel_x(width, chunk, offset) < width,
    ensures
        0 <= pixel_x(width, chunk, offset),
        0 <= pixel_y(width, chunk, offset),
        chunk_index(width, pixel_x(width, chunk, offset), pixel_y(width, chunk, offset))
            == chunk,
        local_offset(pixel_x(width, chunk, offset), pixel_y(width, chunk, offset)) == offset,
{
    let across = chunks_along(width);
    let x = pixel_x(width, chunk, offset);
    let y = pixel_y(width, chunk, offset);
    let lx = offset % (CHUNK_DIM as int);
    let ly = offset / (CHUNK_DIM as int);
    assert(0 < across);
    let col = chunk % across;
    let row = chunk / across;
    assert(0 <= col < across);
    assert(chunk == row * across + col) by {
        vstd::arithmetic::div_mod::lemma_fundamental_div_mod(chunk, across);
        assert(across * row == row * across) by (nonlinear_arith);
    }
    assert(0 <= row) by (nonlinear_arith)
        requires
            chunk == row * across + col,
            0 <= chunk,
            0 <= col < across,
    ;
    lemma_fundamental_div_mod_converse(x, CHUNK_DIM as int, col, lx);
    lemma_fundamental_div_mod_converse(y, CHUNK_DIM as int, row, ly);
}

/// Every chunk of the image starts inside the image: its first column and
/// its first row are a column and a row of the image.
pub proof fn lemma_chunk_origin(width: int, height: int, chunk: int)
    requires
        0 <= width,
        0 <= height,
        0 <= chunk < chunk_count(width, height),
    ensures
        0 < chunks_along(width),
        0 <= chunk % chunks_along(width) < chunks_along(width),
        0 <= chunk / chunks_along(width) < chunks_along(height),
        0 <= (chunk % chunks_along(width)) * CHUNK_DIM < width,
        0 <= (chunk / chunks_along(width)) * CHUNK_DIM < height,
{
    let across = chunks_along(width);
    let down = chunks_along(height);
    assert(0 <= across && 0 <= down);
    assert(0 < across) by (nonlinear_arith)
        requires
            0 <= chunk < across * down,
            0 <= across,
    ;
    let row = chunk / across;
    let col = chunk % across;
    vstd::arithmetic::div_mod::lemma_fundamental_div_mod(chunk, across);
    assert(0 <= col < across);
    assert(0 <= row < down) by (nonlinear_arith)
        requires
            chunk == across * row + col,
            0 <= col < across,
            0 <= chunk < across * down,
    ;
}

/// A place within a chunk splits back into its column and its row.
pub proof fn lemma_place_parts(local_x: int, local_y: int)
    requires
        0 <= local_x < CHUNK_DIM,
        0 <= local_y < CHUNK_DIM,
    ensures
        0 <= local_y * CHUNK_DIM + local_x < CHUNK_AREA,
        (local_y * CHUNK_DIM + local_x) % (CHUNK_DIM as int) == local_x,
        (local_y * CHUNK_DIM + local_x) / (CHUNK_DIM as int) == local_y,
{
}

/// Two different pixels never share a place.
pub proof fn lemma_places_differ(width: int, x1: int, y1: int, x2: int, y2: int)
    requires
        0 <= x1 < width,
        0 <= y1,
        0 <= x2 < width,
        0 <= y2,
        x1 != x2 || y1 != y2,
    ensures
        chunk_index(width, x1, y1) != chunk_index(width, x2, y2) || local_offset(x1, y1)
            != local_offset(x2, y2),
{
    lemma_place_to_pixel(width, x1, y1);
    lemma_place_to_pixel(width, x2, y2);
}

} // verus!
