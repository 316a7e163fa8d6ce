//! The in-memory pixel canvas: a width x height grid of RGB pixels held as
//! an `image::ImageBuffer`, pre-filled with a background color and mutated
//! only by the drawing primitives.
//!
//! The pixel store and the drawing routine come from the `image` and
//! `imageproc` crates; everything the library relies on about them is stated
//! on the small trusted wrappers below, over the raw row-major byte view.

use vstd::prelude::*;
use crate::RenderError;
use crate::geometry::MAX_DIM;

verus! {

/// The raster pixel store: a grid of 8-bit RGB pixels over a flat byte
/// buffer, row-major, three bytes per pixel.
#[verifier::external_body]
pub struct ImageBuf {
    img: imageproc::image::ImageBuffer<imageproc::image::Rgb<u8>, Vec<u8>>,
}

/// The flat byte contents of the pixel store: row-major, three bytes
/// (red, green, blue) per pixel.
pub uninterp spec fn img_bytes(b: ImageBuf) -> Seq<u8>;

/// The pixel width the store was created with.
pub uninterp spec fn img_width(b: ImageBuf) -> nat;

/// The pixel height the store was created with.
pub uninterp spec fn img_height(b: ImageBuf) -> nat;

/// The byte at offset `j` of a uniform fill: the channels of one background
/// color repeating every three bytes.
pub open spec fn channel_byte(j: int, r: u8, g: u8, b: u8) -> u8 {
    if j % 3 == 0 {
        r
    } else if j % 3 == 1 {
        g
    } else {
        b
    }
}

/// A `w` by `h` pixel grid filled uniformly with one color, as flat bytes.
pub open spec fn background_fill(w: int, h: int, r: u8, g: u8, b: u8) -> Seq<u8> {
    Seq::new((3 * w * h) as nat, |j: int| channel_byte(j, r, g, b))
}

/// `bytes` with every pixel of column `x` in rows `ylo..=yhi` repainted in
/// the given color and every other byte unchanged. Byte `j` belongs to pixel
/// `j / 3`, which sits in column `(j / 3) % w` and row `(j / 3) / w`.
pub open spec fn column_painted(
    bytes: Seq<u8>,
    w: int,
    x: int,
    ylo: int,
    yhi: int,
    r: u8,
    g: u8,
    b: u8,
) -> Seq<u8>
    recommends
        0 < w,
{
    Seq::new(
        bytes.len(),
        |j: int|
            if j / 3 % w == x && ylo <= j / 3 / w <= yhi {
                channel_byte(j, r, g, b)
            } else {
                bytes[j]
            },
    )
}

/// Dimensions a canvas can be created with: both positive, neither beyond
/// the drawable range, and a pixel buffer that fits in addressable memory.
pub open spec fn valid_dimensions(w: int, h: int) -> bool {
    &&& 0 < w <= MAX_DIM
    &&& 0 < h <= MAX_DIM
    &&& 3 * w * h <= usize::MAX
}

/// The byte offsets of a pixel inside the canvas lie inside its byte buffer.
pub proof fn lemma_pixel_offset_in_range(w: int, h: int, x: int, y: int)
    requires
        0 < w,
        0 < h,
        0 <= x < w,
        0 <= y < h,
    ensures
        0 <= 3 * (y * w + x),
        3 * (y * w + x) + 2 < 3 * w * h,
{
    assert(0 <= 3 * (y * w + x) && 3 * (y * w + x) + 2 < 3 * w * h) by (nonlinear_arith)
        requires 0 <= x < w, 0 <= y < h;
}

/// Relies on `image::ImageBuffer::from_raw`: a container of exactly
/// `width * height * 3` bytes is accepted as is, becoming the row-major,
/// three-bytes-per-pixel contents of an image of those dimensions.
#[verifier::external_body]
fn img_from_raw(width: u32, height: u32, buf: Vec<u8>) -> (r: ImageBuf)
    requires
        buf@.len() == width as int * height as int * 3,
    ensures
        img_width(r) == width as nat,
        img_height(r) == height as nat,
        img_bytes(r) == buf@,
{
    ImageBuf { img: imageproc::image::ImageBuffer::from_raw(width, height, buf).unwrap() }
}

/// Relies on `imageproc::drawing::draw_antialiased_line_segment_mut` with
/// `imageproc::pixelops::interpolate`, on a vertical segment with in-range
/// endpoints. The segment is steep (or a single point), so the plotting
/// walks the rows from the lower endpoint to the higher one with a zero
/// gradient: the fractional part of the column stays zero, each row's pixel
/// in column `x` is blended at weight one, which `interpolate` maps to the
/// line color exactly, and the pixel in column `x + 1` is blended at weight
/// zero, which writes its previous value back. Columns survive the
/// single-precision round trip because the width stays below `MAX_DIM`.
#[verifier::external_body]
fn img_draw_vertical(b: &mut ImageBuf, x: u32, y0: u32, y1: u32, cr: u8, cg: u8, cb: u8)
    requires
        img_width(*old(b)) <= MAX_DIM,
        img_height(*old(b)) <= MAX_DIM,
        x < img_width(*old(b)),
        y0 < img_height(*old(b)),
        y1 < img_height(*old(b)),
        img_bytes(*old(b)).len() == 3 * img_width(*old(b)) * img_height(*old(b)),
    ensures
        img_width(*final(b)) == img_width(*old(b)),
        img_height(*final(b)) == img_height(*old(b)),
        img_bytes(*final(b)) == column_painted(
            img_bytes(*old(b)),
            img_width(*old(b)) as int,
            x as int,
            if y0 <= y1 { y0 as int } else { y1 as int },
            if y0 <= y1 { y1 as int } else { y0 as int },
            cr,
            cg,
            cb,
        ),
{
    imageproc::drawing::draw_antialiased_line_segment_mut(
        &mut b.img,
        (x as i32, y0 as i32),
        (x as i32, y1 as i32),
        imageproc::image::Rgb([cr, cg, cb]),
        imageproc::pixelops::interpolate,
    );
}

/// Relies on `image::ImageBuffer::put_pixel`: writes the three channel
/// bytes of the pixel at `(x, y)`, at offset `3 * (y * width + x)` of the
/// row-major buffer, and nothing else.
#[verifier::external_body]
fn img_put_pixel(b: &mut ImageBuf, x: u32, y: u32, cr: u8, cg: u8, cb: u8)
    requires
        x < img_width(*old(b)),
        y < img_height(*old(b)),
        img_bytes(*old(b)).len() == 3 * img_width(*old(b)) * img_height(*old(b)),
    ensures
        img_width(*final(b)) == img_width(*old(b)),
        img_height(*final(b)) == img_height(*old(b)),
        img_bytes(*final(b)) == img_bytes(*old(b)).update(
            3 * (y as int * img_width(*old(b)) as int + x as int),
            cr,
        ).update(3 * (y as int * img_width(*old(b)) as int + x as int) + 1, cg).update(
            3 * (y as int * img_width(*old(b)) as int + x as int) + 2,
            cb,
        ),
{
    b.img.put_pixel(x, y, imageproc::image::Rgb([cr, cg, cb]));
}

/// Relies on `image::ImageBuffer::get_pixel`: returns the pixel at
/// `(x, y)`, whose channels are the three bytes at offset
/// `3 * (y * width + x)` of the row-major buffer.
#[verifier::external_body]
fn img_get_pixel(b: &ImageBuf, x: u32, y: u32) -> (c: (u8, u8, u8))
    requires
        x < img_width(*b),
        y < img_height(*b),
        img_bytes(*b).len() == 3 * img_width(*b) * img_height(*b),
    ensures
        c.0 == img_bytes(*b)[3 * (y as int * img_width(*b) as int + x as int)],
        c.1 == img_bytes(*b)[3 * (y as int * img_width(*b) as int + x as int) + 1],
        c.2 == img_bytes(*b)[3 * (y as int * img_width(*b) as int + x as int) + 2],
{
    let p = b.img.get_pixel(x, y);
    (p.0[0], p.0[1], p.0[2])
}

/// Relies on `image::ImageBuffer::as_raw`: exposes the flat row-major byte
/// buffer the image was built over; cloned into an owned vector.
#[verifier::external_body]
fn img_to_vec(b: &ImageBuf) -> (r: Vec<u8>)
    ensures
        r@ == img_bytes(*b),
{
    b.img.as_raw().clone()
}

/// Relies on `image::ImageBuffer::as_raw`: exposes the flat row-major byte
/// buffer the image was built over, borrowed as a byte slice.
#[verifier::external_body]
fn img_as_raw(b: &ImageBuf) -> (r: &[u8])
    ensures
        r@ == img_bytes(*b),
{
    b.img.as_raw().as_slice()
}

/// An in-memory pixel canvas of fixed dimensions, created filled with a
/// background color and mutated only by the drawing operations.
pub struct Canvas {
    width: usize,
    height: usize,
    img: ImageBuf,
}

impl Canvas {
    /// The flat byte contents: row-major, three bytes per pixel.
    pub closed spec fn bytes(self) -> Seq<u8> {
        img_bytes(self.img)
    }

    /// The pixel width the canvas was created with.
    pub closed spec fn spec_width(self) -> int {
        self.width as int
    }

    /// The pixel height the canvas was created with.
    pub closed spec fn spec_height(self) -> int {
        self.height as int
    }

    /// A canvas is well-formed when its dimensions are positive, within the
    /// drawable range, and its byte buffer covers exactly its pixel grid.
    pub closed spec fn wf(self) -> bool {
        &&& 0 < self.width <= MAX_DIM
        &&& 0 < self.height <= MAX_DIM
        &&& img_width(self.img) == self.width as nat
        &&& img_height(self.img) == self.height as nat
        &&& img_bytes(self.img).len() == 3 * self.width * self.height
    }

    /// The canvas width in pixels.
    pub fn width(&self) -> (w: usize)
        requires
            self.wf(),
        ensures
            w == self.spec_width(),
            0 < w <= MAX_DIM,
    {
        self.width
    }

    /// The canvas height in pixels.
    pub fn height(&self) -> (h: usize)
        requires
            self.wf(),
        ensures
            h == self.spec_height(),
            0 < h <= MAX_DIM,
    {
        self.height
    }

    /// Allocates a `width` by `height` canvas filled with the background
    /// color. Dimensions of zero, or larger than the drawable range, are
    /// rejected as `InvalidDimensions`; nothing is ever silently truncated.
    pub fn create(width: usize, height: usize, background: [u8; 3]) -> (r: Result<
        Canvas,
        RenderError,
    >)
        ensures
            (r matches Err(e) && e == RenderError::InvalidDimensions) <==> !valid_dimensions(
                width as int,
                height as int,
            ),
            valid_dimensions(width as int, height as int)
                ==> (r matches Ok(c) && c.wf() && c.spec_width() == width && c.spec_height()
                == height && c.bytes() == background_fill(
                width as int,
                height as int,
                background[0],
                background[1],
                background[2],
            )),
    {
        if width == 0 || height == 0 || width > MAX_DIM || height > MAX_DIM {
            return Err(RenderError::InvalidDimensions);
        }
        proof {
            assert(0 <= width as int * height as int) by (nonlinear_arith)
                requires 0 <= width as int, 0 <= height as int;
        }
        let total: usize = match width.checked_mul(height) {
            Some(t) => t,
            None => {
                proof {
                    assert(width as int * height as int <= 3 * width as int * height as int)
                        by (nonlinear_arith)
                        requires 0 <= width as int * height as int;
                }
                return Err(RenderError::InvalidDimensions);
            },
        };
        if total > usize::MAX / 3 {
            proof {
                assert(3 * width as int * height as int == 3 * (width as int * height as int))
                    by (nonlinear_arith);
                assert(3 * (usize::MAX as int / 3) + 2 >= usize::MAX as int);
            }
            return Err(RenderError::InvalidDimensions);
        }
        let mut buf: Vec<u8> = Vec::new();
        let mut k: usize = 0;
        while k < total
            invariant
                0 <= k <= total,
                buf@.len() == 3 * k,
                forall|j: int|
                    0 <= j < 3 * k ==> buf@[j] == channel_byte(
                        j,
                        background[0],
                        background[1],
                        background[2],
                    ),
            decreases total - k,
        {
            buf.push(background[0]);
            buf.push(background[1]);
            buf.push(background[2]);
            k = k + 1;
        }
        proof {
            let fill = background_fill(
                width as int,
                height as int,
                background[0],
                background[1],
                background[2],
            );
            assert(3 * width as int * height as int == 3 * (width as int * height as int))
                by (nonlinear_arith);
            assert(0 <= width as int * height as int) by (nonlinear_arith)
                requires 0 <= width as int, 0 <= height as int;
            assert(fill.len() == 3 * width as int * height as int);
            assert forall|j: int| 0 <= j < buf@.len() implies buf@[j] == fill[j] by {}
            assert(buf@ =~= fill);
        }
        let img = img_from_raw(width as u32, height as u32, buf);
        Ok(Canvas { width, height, img })
    }

    /// Bounds-checked pixel write: repaints the pixel at `(x, y)` and
    /// reports whether the coordinates were inside the canvas; an
    /// out-of-range write changes nothing.
    pub fn set_pixel(&mut self, x: usize, y: usize, color: [u8; 3]) -> (ok: bool)
        requires
            old(self).wf(),
        ensures
            final(self).wf(),
            final(self).spec_width() == old(self).spec_width(),
            final(self).spec_height() == old(self).spec_height(),
            ok <==> (x < old(self).spec_width() && y < old(self).spec_height()),
            ok ==> final(self).bytes() == old(self).bytes().update(
                3 * (y as int * old(self).spec_width() + x as int),
                color[0],
            ).update(3 * (y as int * old(self).spec_width() + x as int) + 1, color[1]).update(
                3 * (y as int * old(self).spec_width() + x as int) + 2,
                color[2],
            ),
            !ok ==> final(self).bytes() == old(self).bytes(),
    {
        if x < self.width && y < self.height {
            proof {
                lemma_pixel_offset_in_range(
                    self.spec_width(),
                    self.spec_height(),
                    x as int,
                    y as int,
                );
            }
            img_put_pixel(&mut self.img, x as u32, y as u32, color[0], color[1], color[2]);
            true
        } else {
            false
        }
    }

    /// Bounds-checked pixel read: the channels of the pixel at `(x, y)`,
    /// or `None` outside the canvas.
    pub fn get_pixel(&self, x: usize, y: usize) -> (c: Option<(u8, u8, u8)>)
        requires
            self.wf(),
        ensures
            c is Some <==> (x < self.spec_width() && y < self.spec_height()),
            c matches Some(px) ==> {
                &&& px.0 == self.bytes()[3 * (y as int * self.spec_width() + x as int)]
                &&& px.1 == self.bytes()[3 * (y as int * self.spec_width() + x as int) + 1]
                &&& px.2 == self.bytes()[3 * (y as int * self.spec_width() + x as int) + 2]
            },
    {
        if x < self.width && y < self.height {
            Some(img_get_pixel(&self.img, x as u32, y as u32))
        } else {
            None
        }
    }

    /// Draws a vertical line segment between `start` and `end` in the given
    /// color. The portion of the segment outside the canvas is ignored: the
    /// rows are clipped into range and a segment whose column is outside the
    /// canvas changes nothing.
    pub fn draw_line(&mut self, start: (i64, i64), end: (i64, i64), color: [u8; 3])
        requires
            old(self).wf(),
            start.0 == end.0,
        ensures
            final(self).wf(),
            final(self).spec_width() == old(self).spec_width(),
            final(self).spec_height() == old(self).spec_height(),
            final(self).bytes() == {
                let w = old(self).spec_width();
                let h = old(self).spec_height();
                let lo = if (if start.1 <= end.1 { start.1 as int } else { end.1 as int }) < 0 {
                    0int
                } else {
                    (if start.1 <= end.1 { start.1 as int } else { end.1 as int })
                };
                let hi = if (if start.1 <= end.1 { end.1 as int } else { start.1 as int }) > h - 1 {
                    h - 1
                } else {
                    (if start.1 <= end.1 { end.1 as int } else { start.1 as int })
                };
                if 0 <= start.0 < w && lo <= hi {
                    column_painted(old(self).bytes(), w, start.0 as int, lo, hi, color[0], color[1], color[2])
                } else {
                    old(self).bytes()
                }
            },
    {
        let x = start.0;
        if x < 0 || x >= self.width as i64 {
            return;
        }
        let ya = if start.1 <= end.1 { start.1 } else { end.1 };
        let yb = if start.1 <= end.1 { end.1 } else { start.1 };
        let lo: i64 = if ya < 0 { 0 } else { ya };
        let hi: i64 = if yb > self.height as i64 - 1 { self.height as i64 - 1 } else { yb };
        if lo > hi {
            return;
        }
        img_draw_vertical(
            &mut self.img,
            x as u32,
            lo as u32,
            hi as u32,
            color[0],
            color[1],
            color[2],
        );
    }

    /// The raw image contents as an owned byte vector: row-major, channel
    /// interleaved, exactly `width * height * 3` bytes.
    pub fn to_bytes(&self) -> (r: Vec<u8>)
        requires
            self.wf(),
        ensures
            r@ == self.bytes(),
            r@.len() == 3 * self.spec_width() * self.spec_height(),
    {
        img_to_vec(&self.img)
    }

    /// The raw image contents borrowed as a byte slice: row-major, channel
    /// interleaved, exactly `width * height * 3` bytes.
    pub fn as_bytes(&self) -> (r: &[u8])
        requires
            self.wf(),
        ensures
            r@ == self.bytes(),
            r@.len() == 3 * self.spec_width() * self.spec_height(),
    {
        img_as_raw(&self.img)
    }
}

} // verus!
