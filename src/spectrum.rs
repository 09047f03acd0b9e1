use vstd::prelude::*;
use crate::chord::{Chord, chord_of, chord_for_frequency};
use crate::window::AudioWindow;

verus! {

/// Why a window could not be analyzed.
#[derive(Clone, Copy, Debug, PartialEq, Eq, Structural)]
pub enum AnalysisError {
    /// The window holds no samples yet.
    EmptyWindow,
    /// The transform did not yield one spectrum bin per sample.
    TransformFailed,
}

/// The outcome of analyzing one window.
///
/// The dominant frequency is the rational number
/// `dominant_bin * sample_rate / window_length` Hz.
#[derive(Clone, Copy, Debug, PartialEq, Eq, Structural)]
pub struct AnalysisResult {
    pub dominant_bin: usize,
    pub window_length: usize,
    pub sample_rate: u32,
    pub chord: Chord,
}

/// The highest bin that stands for a non-negative frequency.
pub open spec fn last_bin(mags: Seq<u32>) -> int {
    mags.len() as int / 2
}

/// `i` is the dominant bin of a spectrum whose magnitudes order as `mags`:
/// among bins `0 ..= len / 2` it has the greatest magnitude, and no lower bin
/// has as great a one.
pub open spec fn is_dominant(mags: Seq<u32>, i: int) -> bool {
    &&& 0 <= i <= last_bin(mags)
    &&& i < mags.len()
    &&& forall|j: int| 0 <= j <= last_bin(mags) ==> #[trigger] mags[j] <= mags[i]
    &&& forall|j: int| 0 <= j < i ==> #[trigger] mags[j] < mags[i]
}

/// The dominant bin of a non-empty spectrum; `mags` holds one ordering key
/// per bin (keys order as the magnitudes do, such as the bit patterns of
/// non-negative 32-bit floats). Ties go to the lowest bin.
pub fn dominant_bin(mags: &Vec<u32>) -> (r: usize)
    requires
        mags@.len() > 0,
    ensures
        is_dominant(mags@, r as int),
{
    let last = mags.len() / 2;
    let mut best: usize = 0;
    let mut i: usize = 1;
    while i <= last
        invariant
            last == last_bin(mags@),
            last < mags@.len() <= usize::MAX,
            1 <= i <= last + 1,
            best < i,
            forall|j: int| 0 <= j < i ==> #[trigger] mags@[j] <= mags@[best as int],
            forall|j: int| 0 <= j < best ==> #[trigger] mags@[j] < mags@[best as int],
        decreases last + 1 - i,
    {
        if mags[i] > mags[best] {
            best = i;
        }
        i = i + 1;
    }
    best
}

/// The analysis of a window: its dominant bin `bin` and the chord of the
/// frequency `bin * rate / len`.
pub open spec fn analysis_of(bin: int, len: int, rate: u32) -> AnalysisResult {
    AnalysisResult {
        dominant_bin: bin as usize,
        window_length: len as usize,
        sample_rate: rate,
        chord: chord_of(bin * rate, len),
    }
}

/// Analyzes `window` given the magnitude ordering keys of its forward
/// discrete Fourier transform, one per bin: the dominant bin, the frequency
/// it stands for, and that frequency's chord label.
///
/// Fails with `EmptyWindow` on an empty window, and with `TransformFailed`
/// when the spectrum's length differs from the window's.
pub fn analyze_spectrum(window: &AudioWindow, mags: &Vec<u32>) -> (r: Result<
    AnalysisResult,
    AnalysisError,
>)
    ensures
        window@.len() == 0 ==> r == Err::<AnalysisResult, AnalysisError>(
            AnalysisError::EmptyWindow,
        ),
        window@.len() > 0 && mags@.len() != window@.len() ==> r == Err::<
            AnalysisResult,
            AnalysisError,
        >(AnalysisError::TransformFailed),
        r is Ok ==> r->Ok_0.window_length == window@.len() && r->Ok_0.sample_rate
            == window.rate(),
        window@.len() > 0 && mags@.len() == window@.len() ==> r is Ok && is_dominant(
            mags@,
            r->Ok_0.dominant_bin as int,
        ) && r->Ok_0 == analysis_of(
            r->Ok_0.dominant_bin as int,
            window@.len() as int,
            window.rate(),
        ),
{
    let len = window.len();
    if len == 0 {
        return Err(AnalysisError::EmptyWindow);
    }
    if mags.len() != len {
        return Err(AnalysisError::TransformFailed);
    }
    let bin = dominant_bin(mags);
    let rate = window.sample_rate();
    proof {
        lemma_product_fits(bin, rate);
    }
    let num: u128 = (bin as u128) * (rate as u128);
    let chord = chord_for_frequency(num, len as u64);
    Ok(AnalysisResult { dominant_bin: bin, window_length: len, sample_rate: rate, chord })
}

/// The dominant bin is unique: whatever the spectrum, at most one bin
/// meets the definition, so the choice does not depend on how it is searched.
pub proof fn lemma_dominant_bin_unique(mags: Seq<u32>, i: int, j: int)
    requires
        is_dominant(mags, i),
        is_dominant(mags, j),
    ensures
        i == j,
{
    if i < j {
        assert(mags[i] < mags[j]);
        assert(mags[i] <= mags[j] && mags[j] <= mags[i]);
    } else if j < i {
        assert(mags[j] < mags[i]);
    }
}

/// A spectrum whose magnitude over the non-negative bins peaks strictly at
/// bin `k` has `k` as its dominant bin.
pub proof fn lemma_strict_peak_is_dominant(mags: Seq<u32>, k: int)
    requires
        0 <= k <= last_bin(mags),
        k < mags.len(),
        forall|j: int| 0 <= j <= last_bin(mags) && j != k ==> #[trigger] mags[j] < mags[k],
    ensures
        is_dominant(mags, k),
        forall|i: int| is_dominant(mags, i) ==> i == k,
{
    assert forall|i: int| is_dominant(mags, i) implies i == k by {
        lemma_dominant_bin_unique(mags, i, k);
    }
}

proof fn lemma_product_fits(bin: usize, rate: u32)
    ensures
        bin as int * rate as int <= u128::MAX,
{
    assert(bin as int * rate as int <= u64::MAX as int * u32::MAX as int) by (nonlinear_arith)
        requires
            0 <= bin <= u64::MAX,
            0 <= rate <= u32::MAX,
    ;
}

impl AnalysisResult {
    /// The numerator of the dominant frequency, whose denominator is
    /// `window_length`.
    pub fn frequency_numerator(&self) -> (n: u128)
        ensures
            n == self.dominant_bin * self.sample_rate,
    {
        proof {
            lemma_product_fits(self.dominant_bin, self.sample_rate);
        }
        (self.dominant_bin as u128) * (self.sample_rate as u128)
    }

    /// The dominant frequency in whole Hz, rounded down.
    pub fn frequency_hz_floor(&self) -> (f: u128)
        requires
            self.window_length > 0,
        ensures
            f == (self.dominant_bin * self.sample_rate) / (self.window_length as int),
    {
        self.frequency_numerator() / (self.window_length as u128)
    }
}

} // verus!
