//! The waveform rasterizer and the rendered image it produces.
//!
//! Each sample is drawn as one vertical stroke: from the image's center row
//! to the row displaced by the sample's normalized amplitude, mirrored at
//! odd indices, in the wave color over the background fill. The byte-exact
//! result of a render is the spec function `rendered`.

use vstd::prelude::*;
use crate::RenderError;
use crate::amplitude::{
    accumulated_peak, compute_scale, samples_in_range, ScaleFactor, MAX_SAMPLES,
};
use crate::canvas::{
    background_fill, column_painted, lemma_pixel_offset_in_range, valid_dimensions, Canvas,
};
use crate::geometry::{center_row, clamp_row, raw_end_row, sample_column, MAX_DIM};

verus! {

/// The lower row of the stroke drawn for sample `s` at index `i`: the
/// smaller of the center row and the clamped end row.
pub open spec fn stroke_lo(h: int, s: int, peak: int, i: int) -> int {
    let e = clamp_row(raw_end_row(h, s, peak, i), h);
    let c = center_row(h);
    if c <= e {
        c
    } else {
        e
    }
}

/// The upper row of the stroke drawn for sample `s` at index `i`: the
/// larger of the center row and the clamped end row.
pub open spec fn stroke_hi(h: int, s: int, peak: int, i: int) -> int {
    let e = clamp_row(raw_end_row(h, s, peak, i), h);
    let c = center_row(h);
    if c <= e {
        e
    } else {
        c
    }
}

/// The byte contents after the strokes of the first `k` samples have been
/// painted, in index order, over `bytes0`.
pub open spec fn rendered_upto(
    samples: Seq<i64>,
    k: int,
    w: int,
    h: int,
    peak: int,
    cr: u8,
    cg: u8,
    cb: u8,
    bytes0: Seq<u8>,
) -> Seq<u8>
    decreases k,
{
    if k <= 0 {
        bytes0
    } else {
        let i = k - 1;
        let prev = rendered_upto(samples, i, w, h, peak, cr, cg, cb, bytes0);
        column_painted(
            prev,
            w,
            sample_column(w, i, samples.len() as int),
            stroke_lo(h, samples[i] as int, peak, i),
            stroke_hi(h, samples[i] as int, peak, i),
            cr,
            cg,
            cb,
        )
    }
}

/// The complete rendered image: every sample's stroke painted in the wave
/// color over a uniform background fill.
pub open spec fn rendered(
    samples: Seq<i64>,
    w: int,
    h: int,
    peak: int,
    cr: u8,
    cg: u8,
    cb: u8,
    br: u8,
    bg: u8,
    bb: u8,
) -> Seq<u8> {
    rendered_upto(
        samples,
        samples.len() as int,
        w,
        h,
        peak,
        cr,
        cg,
        cb,
        background_fill(w, h, br, bg, bb),
    )
}

/// Whether the pixel at `(x, y)` lies on the stroke of some sample: in that
/// sample's column, between the center row and its clamped end row.
pub open spec fn on_stroke(samples: Seq<i64>, w: int, h: int, peak: int, x: int, y: int) -> bool {
    exists|i: int|
        0 <= i < samples.len() && x == sample_column(w, i, samples.len() as int) && stroke_lo(
            h,
            samples[i] as int,
            peak,
            i,
        ) <= y <= stroke_hi(h, samples[i] as int, peak, i)
}

/// Painting strokes never changes the byte count of the image.
pub proof fn lemma_rendered_upto_len(
    samples: Seq<i64>,
    k: int,
    w: int,
    h: int,
    peak: int,
    cr: u8,
    cg: u8,
    cb: u8,
    bytes0: Seq<u8>,
)
    ensures
        rendered_upto(samples, k, w, h, peak, cr, cg, cb, bytes0).len() == bytes0.len(),
    decreases k,
{
    if k > 0 {
        lemma_rendered_upto_len(samples, k - 1, w, h, peak, cr, cg, cb, bytes0);
    }
}

/// A byte of a pixel on no stroke of the first `k` samples is untouched by
/// painting them.
proof fn lemma_untouched_pixel_upto(
    samples: Seq<i64>,
    k: int,
    w: int,
    h: int,
    peak: int,
    cr: u8,
    cg: u8,
    cb: u8,
    bytes0: Seq<u8>,
    x: int,
    y: int,
    ch: int,
)
    requires
        0 < w,
        0 < h,
        0 <= x < w,
        0 <= y < h,
        0 <= ch < 3,
        0 <= k <= samples.len(),
        bytes0.len() == 3 * w * h,
        !on_stroke(samples, w, h, peak, x, y),
    ensures
        rendered_upto(samples, k, w, h, peak, cr, cg, cb, bytes0)[3 * (y * w + x) + ch]
            == bytes0[3 * (y * w + x) + ch],
    decreases k,
{
    lemma_pixel_offset_in_range(w, h, x, y);
    if k > 0 {
        let i = k - 1;
        lemma_untouched_pixel_upto(samples, i, w, h, peak, cr, cg, cb, bytes0, x, y, ch);
        lemma_rendered_upto_len(samples, i, w, h, peak, cr, cg, cb, bytes0);
        let j = 3 * (y * w + x) + ch;
        vstd::arithmetic::div_mod::lemma_fundamental_div_mod_converse(j, 3, y * w + x, ch);
        vstd::arithmetic::div_mod::lemma_fundamental_div_mod_converse(y * w + x, w, y, x);
        assert(!(0 <= i < samples.len() && x == sample_column(w, i, samples.len() as int)
            && stroke_lo(h, samples[i] as int, peak, i) <= y <= stroke_hi(
            h,
            samples[i] as int,
            peak,
            i,
        )));
    }
}

/// A byte of a pixel on the stroke of sample `i` holds the wave color once
/// the first `k > i` samples have been painted: sample `i` paints it and
/// later strokes only ever repaint the same color.
proof fn lemma_stroke_pixel_upto(
    samples: Seq<i64>,
    k: int,
    w: int,
    h: int,
    peak: int,
    cr: u8,
    cg: u8,
    cb: u8,
    bytes0: Seq<u8>,
    x: int,
    y: int,
    i: int,
)
    requires
        0 < w,
        0 < h,
        0 <= i < k <= samples.len(),
        x == sample_column(w, i, samples.len() as int),
        stroke_lo(h, samples[i] as int, peak, i) <= y <= stroke_hi(h, samples[i] as int, peak, i),
        bytes0.len() == 3 * w * h,
    ensures
        rendered_upto(samples, k, w, h, peak, cr, cg, cb, bytes0)[3 * (y * w + x)] == cr,
        rendered_upto(samples, k, w, h, peak, cr, cg, cb, bytes0)[3 * (y * w + x) + 1] == cg,
        rendered_upto(samples, k, w, h, peak, cr, cg, cb, bytes0)[3 * (y * w + x) + 2] == cb,
    decreases k,
{
    crate::geometry::lemma_sample_column_properties(w, samples.len() as int, i, i);
    assert(0 <= y < h);
    lemma_pixel_offset_in_range(w, h, x, y);
    lemma_rendered_upto_len(samples, k - 1, w, h, peak, cr, cg, cb, bytes0);
    let p = y * w + x;
    vstd::arithmetic::div_mod::lemma_fundamental_div_mod_converse(3 * p, 3, p, 0);
    vstd::arithmetic::div_mod::lemma_fundamental_div_mod_converse(3 * p + 1, 3, p, 1);
    vstd::arithmetic::div_mod::lemma_fundamental_div_mod_converse(3 * p + 2, 3, p, 2);
    vstd::arithmetic::div_mod::lemma_fundamental_div_mod_converse(p, w, y, x);
    if i < k - 1 {
        lemma_stroke_pixel_upto(samples, k - 1, w, h, peak, cr, cg, cb, bytes0, x, y, i);
    }
}

/// Every pixel on some sample's stroke holds the wave color exactly, in all
/// three channels, in the rendered image.
pub proof fn lemma_stroke_painted(
    samples: Seq<i64>,
    w: int,
    h: int,
    peak: int,
    cr: u8,
    cg: u8,
    cb: u8,
    br: u8,
    bg: u8,
    bb: u8,
    x: int,
    y: int,
)
    requires
        0 < w,
        0 < h,
        on_stroke(samples, w, h, peak, x, y),
    ensures
        rendered(samples, w, h, peak, cr, cg, cb, br, bg, bb)[3 * (y * w + x)] == cr,
        rendered(samples, w, h, peak, cr, cg, cb, br, bg, bb)[3 * (y * w + x) + 1] == cg,
        rendered(samples, w, h, peak, cr, cg, cb, br, bg, bb)[3 * (y * w + x) + 2] == cb,
{
    let fill = background_fill(w, h, br, bg, bb);
    assert(fill.len() == 3 * w * h) by {
        assert(3 * w * h == 3 * (w * h) && 0 <= w * h) by (nonlinear_arith)
            requires 0 < w, 0 < h;
    }
    let i = choose|i: int|
        0 <= i < samples.len() && x == sample_column(w, i, samples.len() as int) && stroke_lo(
            h,
            samples[i] as int,
            peak,
            i,
        ) <= y <= stroke_hi(h, samples[i] as int, peak, i);
    lemma_stroke_pixel_upto(
        samples,
        samples.len() as int,
        w,
        h,
        peak,
        cr,
        cg,
        cb,
        fill,
        x,
        y,
        i,
    );
}

/// Every pixel of the rendered image that lies on no sample's stroke keeps
/// the background color exactly, in all three channels.
pub proof fn lemma_background_preserved(
    samples: Seq<i64>,
    w: int,
    h: int,
    peak: int,
    cr: u8,
    cg: u8,
    cb: u8,
    br: u8,
    bg: u8,
    bb: u8,
    x: int,
    y: int,
)
    requires
        0 < w,
        0 < h,
        0 <= x < w,
        0 <= y < h,
        !on_stroke(samples, w, h, peak, x, y),
    ensures
        rendered(samples, w, h, peak, cr, cg, cb, br, bg, bb)[3 * (y * w + x)] == br,
        rendered(samples, w, h, peak, cr, cg, cb, br, bg, bb)[3 * (y * w + x) + 1] == bg,
        rendered(samples, w, h, peak, cr, cg, cb, br, bg, bb)[3 * (y * w + x) + 2] == bb,
{
    lemma_pixel_offset_in_range(w, h, x, y);
    let fill = background_fill(w, h, br, bg, bb);
    assert(fill.len() == 3 * w * h);
    let p = y * w + x;
    lemma_untouched_pixel_upto(
        samples,
        samples.len() as int,
        w,
        h,
        peak,
        cr,
        cg,
        cb,
        fill,
        x,
        y,
        0,
    );
    lemma_untouched_pixel_upto(
        samples,
        samples.len() as int,
        w,
        h,
        peak,
        cr,
        cg,
        cb,
        fill,
        x,
        y,
        1,
    );
    lemma_untouched_pixel_upto(
        samples,
        samples.len() as int,
        w,
        h,
        peak,
        cr,
        cg,
        cb,
        fill,
        x,
        y,
        2,
    );
    assert((3 * p) % 3 == 0 && (3 * p + 1) % 3 == 1 && (3 * p + 2) % 3 == 2) by (nonlinear_arith);
}

/// A rendered image always holds exactly `width * height * 3` bytes, the
/// layout a downstream encoder expects.
pub proof fn lemma_rendered_len(
    samples: Seq<i64>,
    w: int,
    h: int,
    peak: int,
    cr: u8,
    cg: u8,
    cb: u8,
    br: u8,
    bg: u8,
    bb: u8,
)
    requires
        0 < w,
        0 < h,
    ensures
        rendered(samples, w, h, peak, cr, cg, cb, br, bg, bb).len() == 3 * w * h,
{
    lemma_rendered_upto_len(
        samples,
        samples.len() as int,
        w,
        h,
        peak,
        cr,
        cg,
        cb,
        background_fill(w, h, br, bg, bb),
    );
    assert(0 <= 3 * w * h) by (nonlinear_arith)
        requires 0 < w, 0 < h;
}

/// Rendering is deterministic: two renders of the same samples, dimensions
/// and colors produce byte-identical raster output.
pub proof fn lemma_render_deterministic(
    first: Seq<u8>,
    second: Seq<u8>,
    samples: Seq<i64>,
    w: int,
    h: int,
    peak: int,
    cr: u8,
    cg: u8,
    cb: u8,
    br: u8,
    bg: u8,
    bb: u8,
)
    requires
        first == rendered(samples, w, h, peak, cr, cg, cb, br, bg, bb),
        second == rendered(samples, w, h, peak, cr, cg, cb, br, bg, bb),
    ensures
        first == second,
{
}

/// Rasterizes the whole sample buffer into the canvas: one vertical stroke
/// per sample, from the center row to the displaced end row, in scan order.
pub fn draw_wave(sound: &Vec<i64>, scale: &ScaleFactor, canvas: &mut Canvas, wave_color: [u8; 3])
    requires
        old(canvas).wf(),
        0 < sound@.len() <= MAX_SAMPLES,
        samples_in_range(sound@),
        scale.wf(),
    ensures
        final(canvas).wf(),
        final(canvas).spec_width() == old(canvas).spec_width(),
        final(canvas).spec_height() == old(canvas).spec_height(),
        final(canvas).bytes() == rendered_upto(
            sound@,
            sound@.len() as int,
            old(canvas).spec_width(),
            old(canvas).spec_height(),
            scale.peak as int,
            wave_color[0],
            wave_color[1],
            wave_color[2],
            old(canvas).bytes(),
        ),
{
    let n = sound.len();
    let width = canvas.width();
    let height = canvas.height();
    let center: usize = height / 2;
    let mut i: usize = 0;
    while i < n
        invariant
            canvas.wf(),
            canvas.spec_width() == old(canvas).spec_width(),
            canvas.spec_height() == old(canvas).spec_height(),
            width == canvas.spec_width(),
            height == canvas.spec_height(),
            0 < width <= MAX_DIM,
            0 < height <= MAX_DIM,
            center == center_row(height as int),
            0 < n == sound@.len() <= MAX_SAMPLES,
            samples_in_range(sound@),
            scale.wf(),
            0 <= i <= n,
            canvas.bytes() == rendered_upto(
                sound@,
                i as int,
                old(canvas).spec_width(),
                old(canvas).spec_height(),
                scale.peak as int,
                wave_color[0],
                wave_color[1],
                wave_color[2],
                old(canvas).bytes(),
            ),
        decreases n - i,
    {
        let x = crate::geometry::column_of_sample(width, i, n);
        let e = crate::geometry::end_row(height, sound[i], scale.peak, i);
        proof {
            assert(center < height);
        }
        canvas.draw_line((x as i64, center as i64), (x as i64, e as i64), wave_color);
        i = i + 1;
    }
}

/// A rendered waveform image: the canvas produced by one render call,
/// exposed read-only as raw bytes.
pub struct ViewSignal {
    canvas: Canvas,
}

impl ViewSignal {
    /// The rendered image is well-formed whenever its canvas is.
    pub closed spec fn wf(self) -> bool {
        self.canvas.wf()
    }

    /// The raw image contents: row-major, three bytes per pixel.
    pub closed spec fn bytes(self) -> Seq<u8> {
        self.canvas.bytes()
    }

    /// The pixel width of the rendered image.
    pub closed spec fn spec_width(self) -> int {
        self.canvas.spec_width()
    }

    /// The pixel height of the rendered image.
    pub closed spec fn spec_height(self) -> int {
        self.canvas.spec_height()
    }

    /// Renders the waveform of `sound` into a fresh image of the desired
    /// size: the background fill with one stroke per sample in the wave
    /// color, exactly the bytes of the `rendered` spec function. An empty
    /// buffer, a zero accumulated peak, and unusable dimensions are
    /// reported as distinct errors, in that order of detection, and no
    /// partially drawn image is ever returned.
    pub fn new(
        sound: &Vec<i64>,
        desired_size: [usize; 2],
        wave_color: [u8; 3],
        background_color: [u8; 3],
    ) -> (r: Result<ViewSignal, RenderError>)
        requires
            sound@.len() <= MAX_SAMPLES,
            samples_in_range(sound@),
        ensures
            sound@.len() == 0 ==> r == Err::<ViewSignal, RenderError>(RenderError::EmptyInput),
            sound@.len() > 0 && accumulated_peak(sound@) == 0 ==> r == Err::<
                ViewSignal,
                RenderError,
            >(RenderError::DegenerateAmplitude),
            sound@.len() > 0 && accumulated_peak(sound@) != 0 && !valid_dimensions(
                desired_size[0] as int,
                desired_size[1] as int,
            ) ==> r == Err::<ViewSignal, RenderError>(RenderError::InvalidDimensions),
            sound@.len() > 0 && accumulated_peak(sound@) != 0 && valid_dimensions(
                desired_size[0] as int,
                desired_size[1] as int,
            ) ==> (r matches Ok(v) && v.wf() && v.spec_width() == desired_size[0]
                && v.spec_height() == desired_size[1] && v.bytes() == rendered(
                sound@,
                desired_size[0] as int,
                desired_size[1] as int,
                accumulated_peak(sound@),
                wave_color[0],
                wave_color[1],
                wave_color[2],
                background_color[0],
                background_color[1],
                background_color[2],
            )),
    {
        let scale = match compute_scale(sound) {
            Ok(s) => s,
            Err(e) => {
                return Err(e);
            },
        };
        let mut canvas = match Canvas::create(desired_size[0], desired_size[1], background_color) {
            Ok(c) => c,
            Err(e) => {
                return Err(e);
            },
        };
        draw_wave(sound, &scale, &mut canvas, wave_color);
        Ok(ViewSignal { canvas })
    }

    /// Hands the raw bytes and the dimensions of the rendered image to a
    /// caller-supplied conversion function and returns what it produces.
    pub fn convert<T, F: FnOnce(&[u8], [usize; 2]) -> T>(&self, f: F) -> (r: T)
        requires
            self.wf(),
            forall|b: &[u8], d: [usize; 2]|
                b@ == self.bytes() && d[0] as int == self.spec_width() && d[1] as int
                    == self.spec_height() ==> #[trigger] call_requires(f, (b, d)),
        ensures
            exists|b: &[u8], d: [usize; 2]|
                b@ == self.bytes() && d[0] as int == self.spec_width() && d[1] as int
                    == self.spec_height() && #[trigger] call_ensures(f, (b, d), r),
    {
        let bytes = self.canvas.as_bytes();
        let dims: [usize; 2] = [self.canvas.width(), self.canvas.height()];
        f(bytes, dims)
    }

    /// The raw image contents as an owned byte vector: row-major, channel
    /// interleaved, exactly `width * height * 3` bytes.
    pub fn to_bytes(&self) -> (r: Vec<u8>)
        requires
            self.wf(),
        ensures
            r@ == self.bytes(),
            r@.len() == 3 * self.spec_width() * self.spec_height(),
    {
        self.canvas.to_bytes()
    }

    /// The raw image contents borrowed as a byte slice: row-major, channel
    /// interleaved, exactly `width * height * 3` bytes.
    pub fn as_bytes(&self) -> (r: &[u8])
        requires
            self.wf(),
        ensures
            r@ == self.bytes(),
            r@.len() == 3 * self.spec_width() * self.spec_height(),
    {
        self.canvas.as_bytes()
    }

    /// The pixel width of the rendered image.
    pub fn width(&self) -> (w: usize)
        requires
            self.wf(),
        ensures
            w == self.spec_width(),
    {
        self.canvas.width()
    }

    /// The pixel height of the rendered image.
    pub fn height(&self) -> (h: usize)
        requires
            self.wf(),
        ensures
            h == self.spec_height(),
    {
        self.canvas.height()
    }
}

} // verus!
