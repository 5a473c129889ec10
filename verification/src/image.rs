//! The framebuffer: linear radiance in square chunks.
//!
//! Each chunk is a unit of work that depends on no other chunk. A pixel is
//! written and read through the same mapping from coordinates to a chunk and
//! a place in it, the one that the layout module defines.
//!
//! Nothing here locks. Whoever fills a chunk holds the image, or the chunk,
//! exclusively while it writes, so a reader never finds a chunk missing and
//! no pixel ever needs a stand-in value.

use vstd::prelude::*;
use crate::layout::CHUNK_AREA;
use crate::layout::CHUNK_DIM;
use crate::layout::chunk_count;
use crate::layout::chunk_index;
use crate::layout::chunks_along;
use crate::layout::lemma_chunk_origin;
use crate::layout::lemma_locate_in_bounds;
use crate::layout::lemma_place_parts;
use crate::layout::lemma_pixel_to_place;
use crate::layout::lemma_place_to_pixel;
use crate::layout::lemma_places_differ;
use crate::layout::local_offset;
use crate::layout::pixel_x;
use crate::layout::pixel_y;
use crate::scalar::ONE_BITS;
use crate::scalar::Scalar;
use crate::scalar::ZERO_BITS;

verus! {

/// Red, green, blue and opacity: unclamped linear radiance.
#[derive(Clone, Copy, Debug, PartialEq, Eq, Structural)]
pub struct Pixel {
    pub r: Scalar,
    pub g: Scalar,
    pub b: Scalar,
    pub a: Scalar,
}

impl Pixel {
    /// Zero radiance and zero opacity: what a pixel holds before it is
    /// written.
    pub open spec fn clear() -> Pixel {
        Pixel {
            r: Scalar { bits: ZERO_BITS },
            g: Scalar { bits: ZERO_BITS },
            b: Scalar { bits: ZERO_BITS },
            a: Scalar { bits: ZERO_BITS },
        }
    }

    /// Zero radiance at full opacity: what an absorbed path contributes.
    pub open spec fn black() -> Pixel {
        Pixel {
            r: Scalar { bits: ZERO_BITS },
            g: Scalar { bits: ZERO_BITS },
            b: Scalar { bits: ZERO_BITS },
            a: Scalar { bits: ONE_BITS },
        }
    }

    pub fn new(r: Scalar, g: Scalar, b: Scalar, a: Scalar) -> (p: Pixel)
        ensures
            p == (Pixel { r, g, b, a }),
    {
        Pixel { r, g, b, a }
    }

    /// Zero radiance at full opacity.
    pub fn opaque_black() -> (p: Pixel)
        ensures
            p == Pixel::black(),
    {
        Pixel {
            r: Scalar::from_bits(ZERO_BITS),
            g: Scalar::from_bits(ZERO_BITS),
            b: Scalar::from_bits(ZERO_BITS),
            a: Scalar::from_bits(ONE_BITS),
        }
    }
}

impl Default for Pixel {
    fn default() -> (p: Pixel)
        ensures
            p == Pixel::clear(),
    {
        Pixel {
            r: Scalar::from_bits(ZERO_BITS),
            g: Scalar::from_bits(ZERO_BITS),
            b: Scalar::from_bits(ZERO_BITS),
            a: Scalar::from_bits(ZERO_BITS),
        }
    }
}

/// A square tile of the image, stored row by row.
#[derive(Clone, Copy, Debug)]
pub struct Chunk {
    pub pixels: [Pixel; CHUNK_AREA],
}

impl View for Chunk {
    type V = Seq<Pixel>;

    open spec fn view(&self) -> Seq<Pixel> {
        self.pixels@
    }
}

/// The contents of a chunk that nothing was written to.
pub open spec fn blank_chunk() -> Seq<Pixel> {
    Seq::new(CHUNK_AREA as nat, |i: int| Pixel::clear())
}

/// Place of the pixel at column `local_x` and row `local_y` of a chunk.
pub open spec fn place(local_x: int, local_y: int) -> int {
    local_y * CHUNK_DIM + local_x
}

impl Chunk {
    /// The pixel at column `local_x` and row `local_y` of the chunk.
    pub fn get(&self, local_x: usize, local_y: usize) -> (p: Pixel)
        requires
            local_x < CHUNK_DIM,
            local_y < CHUNK_DIM,
        ensures
            p == self@[place(local_x as int, local_y as int)],
    {
        self.pixels[local_y * CHUNK_DIM + local_x]
    }

    /// Writes the pixel at column `local_x` and row `local_y`, and no other.
    pub fn set(&mut self, local_x: usize, local_y: usize, pixel: Pixel)
        requires
            local_x < CHUNK_DIM,
            local_y < CHUNK_DIM,
        ensures
            final(self)@ == old(self)@.update(place(local_x as int, local_y as int), pixel),
    {
        self.pixels[local_y * CHUNK_DIM + local_x] = pixel;
    }
}

impl Default for Chunk {
    fn default() -> (c: Chunk)
        ensures
            c@ == blank_chunk(),
    {
        let c = Chunk { pixels: [Pixel::default(); CHUNK_AREA] };
        proof {
            vstd::array::axiom_spec_array_fill_for_copy_type::<Pixel, CHUNK_AREA>(
                Pixel::clear(),
            );
            assert(c@ =~= blank_chunk());
        }
        c
    }
}

/// What an image holds: its size and the contents of its chunks, row by row
/// over the chunk grid.
pub struct Frame {
    pub width: nat,
    pub height: nat,
    pub chunks: Seq<Seq<Pixel>>,
}

impl Frame {
    /// There is one chunk for each cell of the chunk grid, and every chunk is
    /// whole.
    pub open spec fn wf(self) -> bool {
        &&& self.chunks.len() == chunk_count(self.width as int, self.height as int)
        &&& forall|i: int|
            0 <= i < self.chunks.len() ==> (#[trigger] self.chunks[i]).len() == CHUNK_AREA
    }

    /// Whether `(x, y)` is a pixel of the image.
    pub open spec fn contains(self, x: int, y: int) -> bool {
        0 <= x < self.width && 0 <= y < self.height
    }

    /// The pixel at `(x, y)`.
    pub open spec fn pixel(self, x: int, y: int) -> Pixel {
        self.chunks[chunk_index(self.width as int, x, y)][local_offset(x, y)]
    }

    /// The frame with the pixel at `(x, y)` replaced.
    pub open spec fn with_pixel(self, x: int, y: int, pixel: Pixel) -> Frame {
        let c = chunk_index(self.width as int, x, y);
        Frame {
            width: self.width,
            height: self.height,
            chunks: self.chunks.update(c, self.chunks[c].update(local_offset(x, y), pixel)),
        }
    }

    /// The frame with the chunk at `index` replaced.
    pub open spec fn with_chunk(self, index: int, chunk: Seq<Pixel>) -> Frame {
        Frame { width: self.width, height: self.height, chunks: self.chunks.update(index, chunk) }
    }
}

/// Writing a pixel and reading it back gives what was written; every other
/// pixel of the image reads as before.
pub proof fn lemma_write_then_read(frame: Frame, x: int, y: int, pixel: Pixel, u: int, v: int)
    requires
        frame.wf(),
        frame.contains(x, y),
        frame.contains(u, v),
    ensures
        frame.with_pixel(x, y, pixel).wf(),
        frame.with_pixel(x, y, pixel).pixel(x, y) == pixel,
        (u != x || v != y) ==> frame.with_pixel(x, y, pixel).pixel(u, v) == frame.pixel(u, v),
{
    let w = frame.width as int;
    let h = frame.height as int;
    lemma_locate_in_bounds(w, h, x, y);
    lemma_locate_in_bounds(w, h, u, v);
    if u != x || v != y {
        lemma_places_differ(w, x, y, u, v);
    }
}

/// A pixel written at a place of a chunk is the pixel read at the
/// coordinates that the place stands for: writing by chunk and reading by
/// coordinates go through one mapping.
pub proof fn lemma_chunk_write_then_read(
    frame: Frame,
    index: int,
    local_x: int,
    local_y: int,
    chunk: Seq<Pixel>,
)
    requires
        frame.wf(),
        0 <= index < frame.chunks.len(),
        0 <= local_x < CHUNK_DIM,
        0 <= local_y < CHUNK_DIM,
        frame.contains(
            pixel_x(frame.width as int, index, place(local_x, local_y)),
            pixel_y(frame.width as int, index, place(local_x, local_y)),
        ),
    ensures
        frame.with_chunk(index, chunk).pixel(
            pixel_x(frame.width as int, index, place(local_x, local_y)),
            pixel_y(frame.width as int, index, place(local_x, local_y)),
        ) == chunk[place(local_x, local_y)],
{
    lemma_place_parts(local_x, local_y);
    lemma_pixel_to_place(frame.width as int, index, place(local_x, local_y));
}

/// The framebuffer.
#[derive(Debug)]
pub struct Image {
    data: Vec<Chunk>,
    width: usize,
    height: usize,
}

impl View for Image {
    type V = Frame;

    closed spec fn view(&self) -> Frame {
        Frame {
            width: self.width as nat,
            height: self.height as nat,
            chunks: Seq::new(self.data@.len(), |i: int| self.data@[i]@),
        }
    }
}

fn chunks_for(extent: usize) -> (n: usize)
    ensures
        n == chunks_along(extent as int),
{
    if extent % CHUNK_DIM == 0 {
        extent / CHUNK_DIM
    } else {
        extent / CHUNK_DIM + 1
    }
}

impl Image {
    /// Whether an image of this size has a number of chunks that the machine
    /// can count.
    pub fn fits(width: usize, height: usize) -> (r: bool)
        ensures
            r == (chunk_count(width as int, height as int) <= usize::MAX),
    {
        chunks_for(width).checked_mul(chunks_for(height)).is_some()
    }

    /// An image of the given size, every pixel clear.
    pub fn new(width: usize, height: usize) -> (image: Image)
        requires
            chunk_count(width as int, height as int) <= usize::MAX,
        ensures
            image@.width == width,
            image@.height == height,
            image@.wf(),
            image@.chunks.len() == chunk_count(width as int, height as int),
            forall|i: int| 0 <= i < image@.chunks.len() ==> image@.chunks[i] == blank_chunk(),
    {
        let chunks: usize = chunks_for(width) * chunks_for(height);
        let mut data: Vec<Chunk> = Vec::new();
        let mut k: usize = 0;
        while k < chunks
            invariant
                k <= chunks,
                data@.len() == k,
                forall|i: int| 0 <= i < k ==> (#[trigger] data@[i])@ == blank_chunk(),
            decreases chunks - k,
        {
            data.push(Chunk::default());
            k += 1;
        }
        Image { data, width, height }
    }

    pub fn width(&self) -> (w: usize)
        ensures
            w == self@.width,
    {
        self.width
    }

    pub fn height(&self) -> (h: usize)
        ensures
            h == self@.height,
    {
        self.height
    }

    /// Number of chunks.
    pub fn chunk_count(&self) -> (n: usize)
        ensures
            n == self@.chunks.len(),
    {
        self.data.len()
    }

    /// The chunk and the column and row within it where pixel `(x, y)` is
    /// stored.
    pub fn locate(&self, x: usize, y: usize) -> (at: (usize, usize, usize))
        requires
            self@.wf(),
            self@.contains(x as int, y as int),
        ensures
            at.0 == chunk_index(self@.width as int, x as int, y as int),
            at.0 < self@.chunks.len(),
            at.1 == x % CHUNK_DIM,
            at.2 == y % CHUNK_DIM,
            place(at.1 as int, at.2 as int) == local_offset(x as int, y as int),
    {
        let across: usize = chunks_for(self.width);
        let total: usize = self.data.len();
        proof {
            lemma_locate_in_bounds(self.width as int, self.height as int, x as int, y as int);
            assert(self@.chunks.len() == total);
            assert(chunk_index(self.width as int, x as int, y as int) < self.data@.len());
            assert((y / CHUNK_DIM) * across == (y as int / (CHUNK_DIM as int)) * chunks_along(
                self.width as int,
            ));
        }
        let index: usize = (y / CHUNK_DIM) * across + x / CHUNK_DIM;
        (index, x % CHUNK_DIM, y % CHUNK_DIM)
    }

    /// Column and row of the first pixel of the chunk at `index`. Every chunk
    /// of the image starts inside the image.
    pub fn chunk_origin(&self, index: usize) -> (at: (usize, usize))
        requires
            self@.wf(),
            index < self@.chunks.len(),
        ensures
            at.0 == pixel_x(self@.width as int, index as int, 0),
            at.1 == pixel_y(self@.width as int, index as int, 0),
            at.0 < self@.width,
            at.1 < self@.height,
    {
        let across: usize = chunks_for(self.width);
        proof {
            lemma_chunk_origin(self.width as int, self.height as int, index as int);
        }
        ((index % across) * CHUNK_DIM, (index / across) * CHUNK_DIM)
    }

    /// The pixel stored at column `local_x` and row `local_y` of the chunk at
    /// `index`, or `None` where that place lies past the edge of the image.
    pub fn position(&self, index: usize, local_x: usize, local_y: usize) -> (at: Option<
        (usize, usize),
    >)
        requires
            self@.wf(),
            index < self@.chunks.len(),
            local_x < CHUNK_DIM,
            local_y < CHUNK_DIM,
        ensures
            at is Some <==> self@.contains(
                pixel_x(self@.width as int, index as int, place(local_x as int, local_y as int)),
                pixel_y(self@.width as int, index as int, place(local_x as int, local_y as int)),
            ),
            at matches Some((x, y)) ==> {
                &&& x == pixel_x(
                    self@.width as int,
                    index as int,
                    place(local_x as int, local_y as int),
                )
                &&& y == pixel_y(
                    self@.width as int,
                    index as int,
                    place(local_x as int, local_y as int),
                )
                &&& chunk_index(self@.width as int, x as int, y as int) == index
                &&& local_offset(x as int, y as int) == place(local_x as int, local_y as int)
            },
    {
        let (x_base, y_base) = self.chunk_origin(index);
        proof {
            lemma_place_parts(local_x as int, local_y as int);
        }
        if local_x < self.width - x_base && local_y < self.height - y_base {
            proof {
                lemma_pixel_to_place(
                    self.width as int,
                    index as int,
                    place(local_x as int, local_y as int),
                );
            }
            Some((x_base + local_x, y_base + local_y))
        } else {
            None
        }
    }

    /// Reads the pixel at `(x, y)`.
    pub fn get(&self, x: usize, y: usize) -> (p: Pixel)
        requires
            self@.wf(),
            self@.contains(x as int, y as int),
        ensures
            p == self@.pixel(x as int, y as int),
    {
        let (index, local_x, local_y) = self.locate(x, y);
        self.data[index].get(local_x, local_y)
    }

    /// Writes the pixel at `(x, y)`, through the mapping that `get` reads
    /// by: the pixel then reads as `pixel`, and every other pixel as before.
    pub fn set(&mut self, x: usize, y: usize, pixel: Pixel)
        requires
            old(self)@.wf(),
            old(self)@.contains(x as int, y as int),
        ensures
            final(self)@ == old(self)@.with_pixel(x as int, y as int, pixel),
            final(self)@.wf(),
            final(self)@.pixel(x as int, y as int) == pixel,
            forall|u: int, v: int|
                old(self)@.contains(u, v) && (u != x || v != y) ==> final(self)@.pixel(u, v) == old(
                    self,
                )@.pixel(u, v),
    {
        let (index, local_x, local_y) = self.locate(x, y);
        let mut chunk: Chunk = self.data[index];
        chunk.set(local_x, local_y, pixel);
        self.data.set(index, chunk);
        proof {
            let before = old(self)@;
            let after = before.with_pixel(x as int, y as int, pixel);
            assert(self@.chunks =~= after.chunks);
            assert forall|u: int, v: int|
                before.contains(u, v) && (u != x || v != y) implies after.pixel(u, v)
                == before.pixel(u, v) by {
                lemma_write_then_read(before, x as int, y as int, pixel, u, v);
            }
            lemma_write_then_read(before, x as int, y as int, pixel, x as int, y as int);
        }
    }

    /// The chunk at `index`.
    pub fn chunk(&self, index: usize) -> (c: &Chunk)
        requires
            index < self@.chunks.len(),
        ensures
            c@ == self@.chunks[index as int],
    {
        &self.data[index]
    }

    /// The chunk at `index`, to be written in place. What the caller leaves
    /// in it is what the image then holds there; no other chunk changes.
    pub fn chunk_mut(&mut self, index: usize) -> (c: &mut Chunk)
        requires
            index < old(self)@.chunks.len(),
        ensures
            c@ == old(self)@.chunks[index as int],
            final(self)@ == old(self)@.with_chunk(index as int, final(c)@),
            old(self)@.wf() ==> final(self)@.wf(),
    {
        proof {
            // Whatever chunk ends up at `index`, the frame changes there only.
            assert forall|after: Seq<Chunk>, chunk: Chunk|
                after == old(self).data@.update(index as int, chunk) implies Seq::new(
                after.len(),
                |i: int| after[i]@,
            ) == old(self)@.chunks.update(index as int, chunk@) by {
                assert(Seq::new(after.len(), |i: int| after[i]@) =~= old(self)@.chunks.update(
                    index as int,
                    chunk@,
                ));
            }
        }
        &mut self.data[index]
    }

    /// Replaces the chunk at `index`, and no other.
    pub fn put_chunk(&mut self, index: usize, chunk: Chunk)
        requires
            index < old(self)@.chunks.len(),
        ensures
            final(self)@ == old(self)@.with_chunk(index as int, chunk@),
            old(self)@.wf() ==> final(self)@.wf(),
    {
        self.data.set(index, chunk);
        proof {
            assert(self@.chunks =~= old(self)@.with_chunk(index as int, chunk@).chunks);
        }
    }

    /// The pixel that a writer of rows from the bottom up puts at `(x, y)`:
    /// the image's pixel in the same column, counted from the last row.
    pub fn export_pixel(&self, x: usize, y: usize) -> (p: Pixel)
        requires
            self@.wf(),
            self@.contains(x as int, y as int),
        ensures
            p == self@.pixel(x as int, self@.height - y - 1),
    {
        self.get(x, self.height - y - 1)
    }
}

impl Default for Image {
    /// The image without pixels.
    fn default() -> (image: Image)
        ensures
            image@.width == 0,
            image@.height == 0,
            image@.chunks.len() == 0,
            image@.wf(),
    {
        Image { data: Vec::new(), width: 0, height: 0 }
    }
}

} // verus!
