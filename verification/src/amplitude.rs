//! Peak-amplitude accumulation and the normalization scale factor.
//!
//! The tracked "highest" value is not the true maximum of the buffer: every
//! time a sample strictly exceeds the running value, the sample is added to
//! it. This accumulate-on-new-record rule is deliberate, observed behaviour
//! and is preserved here exactly.

use vstd::prelude::*;
use crate::RenderError;

verus! {

/// Largest sample magnitude the renderer accepts. Samples are fixed-point
/// amplitudes; this headroom keeps the accumulated peak and all later
/// products inside the machine integer types.
pub const AMP_LIMIT: i64 = 4294967296;

/// Largest number of samples one render accepts, so that the accumulated
/// peak cannot overflow a 64-bit integer.
pub const MAX_SAMPLES: usize = 1073741824;

/// One amplitude reading within the accepted fixed-point range.
pub open spec fn sample_in_range(s: i64) -> bool {
    -AMP_LIMIT <= s <= AMP_LIMIT
}

/// Every sample of the buffer is within the accepted fixed-point range.
pub open spec fn samples_in_range(s: Seq<i64>) -> bool {
    forall|i: int| 0 <= i < s.len() ==> sample_in_range(#[trigger] s[i])
}

/// The accumulate-on-new-record rule, scanning left to right from zero:
/// a sample that strictly exceeds the running value is added to it, all
/// other samples leave it unchanged.
pub open spec fn accumulated_peak(s: Seq<i64>) -> int
    decreases s.len(),
{
    if s.len() == 0 {
        0
    } else {
        let prev = accumulated_peak(s.drop_last());
        if s.last() > prev {
            prev + s.last()
        } else {
            prev
        }
    }
}

/// Extending the scan by one sample applies one step of the rule.
proof fn lemma_accumulated_peak_step(s: Seq<i64>, i: int)
    requires
        0 <= i < s.len(),
    ensures
        accumulated_peak(s.take(i + 1)) == if s[i] > accumulated_peak(s.take(i)) {
            accumulated_peak(s.take(i)) + s[i]
        } else {
            accumulated_peak(s.take(i))
        },
{
    assert(s.take(i + 1).drop_last() =~= s.take(i));
    assert(s.take(i + 1).last() == s[i]);
}

/// The accumulated peak is never negative and never exceeds the number of
/// samples times the largest accepted magnitude.
pub proof fn lemma_accumulated_peak_bounds(s: Seq<i64>)
    requires
        samples_in_range(s),
    ensures
        0 <= accumulated_peak(s) <= s.len() * AMP_LIMIT,
    decreases s.len(),
{
    if s.len() > 0 {
        assert(samples_in_range(s.drop_last()));
        lemma_accumulated_peak_bounds(s.drop_last());
        assert(s.last() == s[s.len() - 1]);
        assert((s.len() - 1) * AMP_LIMIT + AMP_LIMIT == s.len() * AMP_LIMIT) by (nonlinear_arith);
    }
}

/// A buffer with no strictly positive sample accumulates nothing: the
/// degenerate (for example, all-zero or silent) case yields a zero peak.
pub proof fn lemma_nonpositive_samples_give_zero_peak(s: Seq<i64>)
    requires
        forall|i: int| 0 <= i < s.len() ==> #[trigger] s[i] <= 0,
    ensures
        accumulated_peak(s) == 0,
    decreases s.len(),
{
    if s.len() > 0 {
        lemma_nonpositive_samples_give_zero_peak(s.drop_last());
        assert(s.last() == s[s.len() - 1]);
    }
}

/// Conversely, one strictly positive sample forces a strictly positive peak.
pub proof fn lemma_positive_sample_gives_positive_peak(s: Seq<i64>, i: int)
    requires
        0 <= i < s.len(),
        s[i] > 0,
    ensures
        accumulated_peak(s) > 0,
    decreases s.len(),
{
    if i == s.len() - 1 {
        lemma_peak_nonneg(s.drop_last());
    } else {
        lemma_positive_sample_gives_positive_peak(s.drop_last(), i);
        lemma_peak_monotone_in_prefix(s);
    }
}

/// The accumulated peak starts at zero and only ever grows, so it is never
/// negative, whatever the samples are.
proof fn lemma_peak_nonneg(s: Seq<i64>)
    ensures
        accumulated_peak(s) >= 0,
    decreases s.len(),
{
    if s.len() > 0 {
        lemma_peak_nonneg(s.drop_last());
    }
}

/// Dropping the last sample can only lower (or keep) the accumulated peak.
proof fn lemma_peak_monotone_in_prefix(s: Seq<i64>)
    requires
        s.len() > 0,
    ensures
        accumulated_peak(s) >= accumulated_peak(s.drop_last()),
{
    lemma_peak_nonneg(s.drop_last());
}

/// Scans the sample buffer once, left to right, and returns the running
/// "highest" value under the accumulate-on-new-record rule.
pub fn find_highest_sample(samples: &Vec<i64>) -> (highest: i64)
    requires
        samples@.len() <= MAX_SAMPLES,
        samples_in_range(samples@),
    ensures
        highest == accumulated_peak(samples@),
        0 <= highest <= samples@.len() * AMP_LIMIT,
{
    let n = samples.len();
    let mut highest: i64 = 0;
    let mut i: usize = 0;
    while i < n
        invariant
            n == samples@.len() <= MAX_SAMPLES,
            samples_in_range(samples@),
            0 <= i <= n,
            highest == accumulated_peak(samples@.take(i as int)),
            0 <= highest <= i * AMP_LIMIT,
        decreases n - i,
    {
        let s = samples[i];
        proof {
            lemma_accumulated_peak_step(samples@, i as int);
            assert(i * AMP_LIMIT + AMP_LIMIT == (i + 1) * AMP_LIMIT) by (nonlinear_arith);
            assert((i + 1) * AMP_LIMIT <= MAX_SAMPLES * AMP_LIMIT) by (nonlinear_arith)
                requires i + 1 <= MAX_SAMPLES, AMP_LIMIT > 0;
        }
        if s > highest {
            highest = highest + s;
        }
        i = i + 1;
    }
    proof {
        assert(samples@.take(n as int) =~= samples@);
    }
    highest
}

/// Returns the accumulated "highest" value that the normalization ratio is
/// the reciprocal of. The scale applied later is `1 / highest`, carried
/// exactly as the `ScaleFactor` denominator.
pub fn wave_height_ratio(sound: &Vec<i64>) -> (highest: i64)
    requires
        sound@.len() <= MAX_SAMPLES,
        samples_in_range(sound@),
    ensures
        highest == accumulated_peak(sound@),
{
    find_highest_sample(sound)
}

/// The normalization scale of one render: the scale is `1 / peak`, kept
/// exactly as its positive denominator.
#[derive(Clone, Copy, Debug)]
pub struct ScaleFactor {
    /// The accumulated peak amplitude; the scale factor is its reciprocal.
    pub peak: i64,
}

impl ScaleFactor {
    /// A well-formed scale factor has a strictly positive denominator that
    /// bounds the later displacement arithmetic.
    pub open spec fn wf(self) -> bool {
        0 < self.peak <= MAX_SAMPLES * AMP_LIMIT
    }
}

/// Computes the normalization scale of a render: the reciprocal of the
/// accumulated peak. An empty buffer has no peak, and a buffer whose
/// accumulated peak is zero would give an unbounded scale; both are
/// reported as errors rather than rendered.
pub fn compute_scale(samples: &Vec<i64>) -> (r: Result<ScaleFactor, RenderError>)
    requires
        samples@.len() <= MAX_SAMPLES,
        samples_in_range(samples@),
    ensures
        samples@.len() == 0 ==> r == Err::<ScaleFactor, RenderError>(RenderError::EmptyInput),
        samples@.len() > 0 && accumulated_peak(samples@) == 0 ==> r == Err::<ScaleFactor, RenderError>(
            RenderError::DegenerateAmplitude,
        ),
        samples@.len() > 0 && accumulated_peak(samples@) != 0 ==> (r matches Ok(sf)
            && sf.peak == accumulated_peak(samples@) && sf.wf()),
{
    if samples.len() == 0 {
        return Err(RenderError::EmptyInput);
    }
    let highest = find_highest_sample(samples);
    proof {
        lemma_accumulated_peak_bounds(samples@);
        assert(samples@.len() * AMP_LIMIT <= MAX_SAMPLES * AMP_LIMIT) by (nonlinear_arith)
            requires samples@.len() <= MAX_SAMPLES, AMP_LIMIT > 0;
    }
    if highest == 0 {
        Err(RenderError::DegenerateAmplitude)
    } else {
        Ok(ScaleFactor { peak: highest })
    }
}

} // verus!
