//! Plain arithmetic over a decoded sample buffer's shape: its whole-second
//! duration and a default image width derived from its length. The decoding
//! itself, being file I/O, lives outside the library; these functions take
//! the decoder's plain values.

use vstd::prelude::*;

verus! {

/// The whole-second duration of a decoded buffer: the sample count divided
/// by the sample rate, then by the channel count, both truncating.
pub fn sample_duration_secs(n_samples: usize, sample_rate: u32, channels: u16) -> (d: u64)
    requires
        sample_rate > 0,
        channels > 0,
    ensures
        d == n_samples as int / sample_rate as int / channels as int,
{
    (n_samples as u64 / sample_rate as u64) / channels as u64
}

/// The default image width for a decoded buffer: one pixel column per
/// hundred samples, truncating.
pub fn convert_duration_to_width(n_samples: usize) -> (w: usize)
    ensures
        w == n_samples as int / 100,
{
    n_samples / 100
}

} // verus!
