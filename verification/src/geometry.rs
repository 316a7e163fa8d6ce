//! Sample-to-pixel geometry: the horizontal column of each sample and the
//! vertical extent of the stroke drawn for it.
//!
//! All of it is exact integer arithmetic. The normalization scale `1 / peak`
//! is never materialized: a displacement `(h / 2) * (s / peak)` is computed
//! as the rational `h * s / (2 * peak)`, rounded to the nearest pixel row.

use vstd::prelude::*;
use vstd::arithmetic::div_mod::{
    lemma_basic_div, lemma_div_is_ordered, lemma_div_pos_is_pos,
    lemma_fundamental_div_mod_converse,
};
use crate::amplitude::{sample_in_range, AMP_LIMIT, MAX_SAMPLES};

verus! {

/// Widest and tallest image the renderer accepts. Pixel columns travel
/// through the drawing primitives in single-precision form, which is exact
/// only below two to the twenty-fourth.
pub const MAX_DIM: usize = 16777215;

/// The pixel column of sample `i` out of `n` on an image `w` pixels wide.
pub open spec fn sample_column(w: int, i: int, n: int) -> int
    recommends
        0 < w,
        0 < n,
{
    w * i / n
}

/// The integer vertical center of an image `h` pixels tall.
pub open spec fn center_row(h: int) -> int {
    h / 2
}

/// `num / den` rounded to the nearest integer, ties away from zero.
pub open spec fn div_round_nearest(num: int, den: int) -> int
    recommends
        0 < den,
{
    if num >= 0 {
        (2 * num + den) / (2 * den)
    } else {
        -((2 * (-num) + den) / (2 * den))
    }
}

/// The signed vertical displacement of a sample `s`: half the image height
/// times the normalized amplitude `s / peak`, rounded to the nearest row.
pub open spec fn wave_offset(h: int, s: int, peak: int) -> int
    recommends
        0 < peak,
{
    div_round_nearest(h * s, 2 * peak)
}

/// The unclamped end row of the stroke for sample `s` at index `i`: the
/// center row plus the displacement at even indices, minus it at odd ones,
/// mirroring alternate samples about the center.
pub open spec fn raw_end_row(h: int, s: int, peak: int, i: int) -> int
    recommends
        0 < peak,
{
    if i % 2 == 0 {
        center_row(h) + wave_offset(h, s, peak)
    } else {
        center_row(h) - wave_offset(h, s, peak)
    }
}

/// A row clamped into the drawable range `[0, h - 1]`.
pub open spec fn clamp_row(y: int, h: int) -> int
    recommends
        0 < h,
{
    if y < 0 {
        0
    } else if y > h - 1 {
        h - 1
    } else {
        y
    }
}

/// The pixel columns of a sample buffer never decrease with the sample
/// index, and every column, the last sample's included, lies strictly left
/// of the image width.
pub proof fn lemma_sample_column_properties(w: int, n: int, i: int, j: int)
    requires
        0 < w,
        0 < n,
        0 <= i <= j < n,
    ensures
        sample_column(w, i, n) <= sample_column(w, j, n),
        0 <= sample_column(w, i, n),
        sample_column(w, j, n) < w,
{
    assert(0 <= w * i && w * i <= w * j && w * j <= w * n - w) by (nonlinear_arith)
        requires 0 < w, 0 <= i <= j, j < n;
    lemma_div_pos_is_pos(w * i, n);
    lemma_div_is_ordered(w * i, w * j, n);
    assert((w - 1) * n + (n - 1) == w * n - 1) by (nonlinear_arith);
    lemma_fundamental_div_mod_converse(w * n - 1, n, w - 1, n - 1);
    lemma_div_is_ordered(w * j, w * n - 1, n);
}

/// Computes the pixel column of sample `i` out of `n`: `floor(w * i / n)`.
pub fn column_of_sample(width: usize, i: usize, n: usize) -> (x: usize)
    requires
        0 < width <= MAX_DIM,
        0 < n,
        i < n,
    ensures
        x == sample_column(width as int, i as int, n as int),
        x < width,
{
    proof {
        lemma_sample_column_properties(width as int, n as int, i as int, i as int);
        assert(width as int * i as int <= 0x1000000 * 0xffffffffffffffffu64 as int)
            by (nonlinear_arith)
            requires 0 <= width as int <= 0x1000000, 0 <= i as int <= 0xffffffffffffffffu64 as int;
    }
    let x: u128 = (width as u128) * (i as u128) / (n as u128);
    x as usize
}

/// Computes the clamped end row of the stroke for sample `s` at index `i`:
/// the center row displaced by the normalized amplitude, rounded to the
/// nearest row, mirrored at odd indices, and clamped into the image.
pub fn end_row(height: usize, s: i64, peak: i64, index: usize) -> (y: usize)
    requires
        0 < height <= MAX_DIM,
        0 < peak <= MAX_SAMPLES as int * AMP_LIMIT as int,
        sample_in_range(s),
    ensures
        y == clamp_row(
            raw_end_row(height as int, s as int, peak as int, index as int),
            height as int,
        ),
        y < height,
{
    let sa: u128 = if s < 0 { (-s) as u128 } else { s as u128 };
    proof {
        assert(height as int * sa as int <= 0x1000000 * 0x100000000) by (nonlinear_arith)
            requires 0 <= height as int <= 0x1000000, 0 <= sa as int <= 0x100000000;
    }
    let num: u128 = (height as u128) * sa;
    let den: u128 = 2 * (peak as u128);
    let q: u128 = (2 * num + den) / (2 * den);
    let center: usize = height / 2;
    proof {
        lemma_div_pos_is_pos((2 * num + den) as int, (2 * den) as int);
        if s >= 0 {
            assert(height as int * s as int == num as int) by (nonlinear_arith)
                requires s as int == sa as int, height as int * sa as int == num as int;
        } else {
            assert(height as int * s as int == -(num as int)) by (nonlinear_arith)
                requires s as int == -(sa as int), height as int * sa as int == num as int;
        }
    }
    let ghost off = wave_offset(height as int, s as int, peak as int);
    proof {
        if s < 0 && num == 0 {
            lemma_basic_div(2 * peak as int, 4 * peak as int);
            lemma_basic_div(den as int, 2 * den as int);
        }
        assert(off == if s >= 0 { q as int } else { -(q as int) });
    }
    let positive_direction: bool = (index % 2 == 0) == (s >= 0);
    if positive_direction {
        // The stroke points away from the center toward larger rows.
        let limit: u128 = (height - 1 - center) as u128;
        if q > limit {
            height - 1
        } else {
            center + (q as usize)
        }
    } else {
        // The stroke points toward smaller rows; rows below zero are clamped.
        if q > center as u128 {
            0
        } else {
            center - (q as usize)
        }
    }
}

} // verus!
