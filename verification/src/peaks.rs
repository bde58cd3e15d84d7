//! Peak resolution: candidate extraction by strict local maxima, and the
//! topographic-prominence significance test.

use vstd::prelude::*;

verus! {

use crate::spectrum::SpectrumBin;
use crate::spectrum::spec_max_magnitude;
use crate::spectrum::max_magnitude;
use crate::spectrum::wf_spectrum;

/// Bin `i` is a peak candidate: an interior bin at or above the magnitude
/// threshold that is strictly taller than both neighbors, so plateaus of
/// equal magnitude never qualify.
pub open spec fn is_candidate(s: Seq<SpectrumBin>, threshold: u64, i: int) -> bool {
    &&& 1 <= i <= s.len() - 2
    &&& s[i].magnitude >= threshold
    &&& s[i].magnitude > s[i - 1].magnitude
    &&& s[i].magnitude > s[i + 1].magnitude
}

/// The candidates among the bins with index below `n`, in index order.
pub open spec fn spec_local_maxima_upto(s: Seq<SpectrumBin>, threshold: u64, n: int) -> Seq<
    SpectrumBin,
>
    decreases n,
{
    if n <= 1 {
        Seq::empty()
    } else {
        let rest = spec_local_maxima_upto(s, threshold, n - 1);
        if is_candidate(s, threshold, n - 1) {
            rest.push(s[n - 1])
        } else {
            rest
        }
    }
}

/// All peak candidates of a spectrum, in index order. Boundary bins are
/// never candidates.
pub open spec fn spec_local_maxima(s: Seq<SpectrumBin>, threshold: u64) -> Seq<SpectrumBin> {
    spec_local_maxima_upto(s, threshold, s.len() - 1)
}

/// A bin taken from spectrum `s` at its own recorded interior position,
/// strictly taller than both neighbors there.
pub open spec fn is_peak_of(s: Seq<SpectrumBin>, b: SpectrumBin) -> bool {
    &&& 1 <= b.index <= s.len() - 2
    &&& s[b.index as int] == b
    &&& b.magnitude > s[b.index - 1].magnitude
    &&& b.magnitude > s[b.index + 1].magnitude
}

/// Every candidate of a spectrum whose bins record their own positions is
/// a peak of that spectrum.
proof fn lemma_local_maxima_upto_peaks(s: Seq<SpectrumBin>, threshold: u64, n: int)
    requires
        wf_spectrum(s),
        n <= s.len(),
    ensures
        forall|k: int|
            0 <= k < spec_local_maxima_upto(s, threshold, n).len() ==> is_peak_of(
                s,
                #[trigger] spec_local_maxima_upto(s, threshold, n)[k],
            ),
    decreases n,
{
    if n > 1 {
        lemma_local_maxima_upto_peaks(s, threshold, n - 1);
        let rest = spec_local_maxima_upto(s, threshold, n - 1);
        let cur = spec_local_maxima_upto(s, threshold, n);
        assert forall|k: int| 0 <= k < cur.len() implies is_peak_of(s, #[trigger] cur[k]) by {
            if is_candidate(s, threshold, n - 1) {
                assert(cur == rest.push(s[n - 1]));
                if k < rest.len() {
                    assert(cur[k] == rest[k]);
                } else {
                    assert(cur[k] == s[n - 1]);
                    assert(s[n - 1].index == n - 1);
                }
            } else {
                assert(cur[k] == rest[k]);
            }
        }
    }
}

/// Extracts the peak candidates of the spectrum: interior bins at or
/// above one third of the maximum magnitude that are strictly taller
/// than both neighbors. Boundary bins are never returned.
pub fn get_local_maxima(spectrum: &Vec<SpectrumBin>) -> (r: Vec<SpectrumBin>)
    ensures
        r@ == spec_local_maxima(spectrum@, spec_max_magnitude(spectrum@) / 3),
        wf_spectrum(spectrum@) ==> forall|k: int|
            0 <= k < r@.len() ==> is_peak_of(spectrum@, #[trigger] r@[k]),
        wf_spectrum(spectrum@) ==> forall|k: int|
            0 <= k < r@.len() ==> 1 <= (#[trigger] r@[k]).index < spectrum@.len() - 1,
{
    let magnitude_threshold = max_magnitude(spectrum) / 3;
    let n = spectrum.len();
    let mut out: Vec<SpectrumBin> = Vec::new();
    proof {
        if wf_spectrum(spectrum@) {
            lemma_local_maxima_upto_peaks(spectrum@, magnitude_threshold, n as int - 1);
        }
    }
    if n < 2 {
        return out;
    }
    let mut i: usize = 1;
    while i < n - 1
        invariant
            1 <= i <= n - 1,
            2 <= n == spectrum@.len(),
            out@ == spec_local_maxima_upto(spectrum@, magnitude_threshold, i as int),
        decreases n - i,
    {
        if spectrum[i].magnitude >= magnitude_threshold {
            if spectrum[i].magnitude > spectrum[i - 1].magnitude && spectrum[i].magnitude
                > spectrum[i + 1].magnitude {
                out.push(spectrum[i]);
            }
        }
        i = i + 1;
    }
    out
}

/// Minimum magnitude seen when scanning leftward from bin `i` toward the
/// start of the spectrum, stopping the instant a bin taller than the peak
/// at `p` is found; the maximum 64-bit value stands for an empty scan.
pub open spec fn left_scan_min(s: Seq<SpectrumBin>, p: int, i: int) -> int
    decreases i + 1,
{
    if i < 0 || i >= s.len() {
        u64::MAX as int
    } else if s[i].magnitude > s[p].magnitude {
        u64::MAX as int
    } else {
        vstd::math::min(s[i].magnitude as int, left_scan_min(s, p, i - 1))
    }
}

/// Mirror of `left_scan_min`, scanning rightward toward the end.
pub open spec fn right_scan_min(s: Seq<SpectrumBin>, p: int, i: int) -> int
    decreases s.len() - i,
{
    if i < 0 || i >= s.len() {
        u64::MAX as int
    } else if s[i].magnitude > s[p].magnitude {
        u64::MAX as int
    } else {
        vstd::math::min(s[i].magnitude as int, right_scan_min(s, p, i + 1))
    }
}

/// Topographic prominence of the peak at `p`: its magnitude minus the
/// higher of the two bounding valleys.
pub open spec fn spec_prominence(s: Seq<SpectrumBin>, p: int) -> int {
    s[p].magnitude - vstd::math::max(left_scan_min(s, p, p - 1), right_scan_min(s, p, p + 1))
}

proof fn lemma_left_scan_min_nonneg(s: Seq<SpectrumBin>, p: int, i: int)
    ensures
        0 <= left_scan_min(s, p, i) <= u64::MAX,
    decreases i + 1,
{
    if 0 <= i < s.len() && !(s[i].magnitude > s[p].magnitude) {
        lemma_left_scan_min_nonneg(s, p, i - 1);
    }
}

proof fn lemma_right_scan_min_nonneg(s: Seq<SpectrumBin>, p: int, i: int)
    ensures
        0 <= right_scan_min(s, p, i) <= u64::MAX,
    decreases s.len() - i,
{
    if 0 <= i < s.len() && !(s[i].magnitude > s[p].magnitude) {
        lemma_right_scan_min_nonneg(s, p, i + 1);
    }
}

/// The prominence of a peak is never negative and never exceeds the
/// peak's own magnitude: both scans start at a strictly lower neighbor.
pub proof fn lemma_peak_prominence_bounds(s: Seq<SpectrumBin>, b: SpectrumBin)
    requires
        is_peak_of(s, b),
    ensures
        0 < spec_prominence(s, b.index as int) <= b.magnitude,
{
    let p = b.index as int;
    lemma_left_scan_min_nonneg(s, p, p - 2);
    lemma_right_scan_min_nonneg(s, p, p + 2);
    assert(left_scan_min(s, p, p - 1) <= s[p - 1].magnitude);
    assert(right_scan_min(s, p, p + 1) <= s[p + 1].magnitude);
}

/// Computes the topographic prominence of the peak at `peak_index`: scan
/// each way until a taller bin bounds the contour, track the minimum of
/// the run, and subtract the higher of the two minima from the peak.
pub fn calculate_prominence(spectrum: &Vec<SpectrumBin>, peak_index: usize) -> (r: u64)
    requires
        1 <= peak_index,
        peak_index + 1 < spectrum@.len(),
        spectrum@[peak_index as int].magnitude > spectrum@[peak_index - 1].magnitude,
        spectrum@[peak_index as int].magnitude > spectrum@[peak_index + 1].magnitude,
    ensures
        r as int == spec_prominence(spectrum@, peak_index as int),
        r <= spectrum@[peak_index as int].magnitude,
{
    let ghost s = spectrum@;
    let ghost p = peak_index as int;
    let n = spectrum.len();
    let pm = spectrum[peak_index].magnitude;
    let mut left_min: u64 = u64::MAX;
    let mut i: usize = peak_index;
    while i > 0
        invariant_except_break
            0 <= i <= peak_index,
            s == spectrum@,
            p == peak_index as int,
            1 <= peak_index,
            peak_index + 1 < n == s.len(),
            pm == s[p].magnitude,
            s[p].magnitude > s[p - 1].magnitude,
            left_scan_min(s, p, p - 1) == vstd::math::min(
                left_min as int,
                left_scan_min(s, p, i - 1),
            ),
            i < peak_index ==> left_min as int <= s[p - 1].magnitude,
            i == peak_index ==> left_min == u64::MAX,
        ensures
            left_scan_min(s, p, p - 1) == left_min as int,
            left_min as int <= s[p - 1].magnitude,
        decreases i,
    {
        let j = i - 1;
        if spectrum[j].magnitude > pm {
            proof {
                assert(j < p);
                assert(left_scan_min(s, p, j as int) == u64::MAX as int);
                lemma_left_scan_min_nonneg(s, p, p - 1);
            }
            break ;
        }
        if spectrum[j].magnitude < left_min {
            left_min = spectrum[j].magnitude;
        }
        i = j;
        proof {
            lemma_left_scan_min_nonneg(s, p, i - 1);
        }
    }
    proof {
        lemma_left_scan_min_nonneg(s, p, p - 1);
    }
    let mut right_min: u64 = u64::MAX;
    let mut i: usize = peak_index + 1;
    while i < n
        invariant_except_break
            peak_index + 1 <= i <= n,
            s == spectrum@,
            p == peak_index as int,
            1 <= peak_index,
            peak_index + 1 < n == s.len(),
            pm == s[p].magnitude,
            s[p].magnitude > s[p + 1].magnitude,
            right_scan_min(s, p, p + 1) == vstd::math::min(
                right_min as int,
                right_scan_min(s, p, i as int),
            ),
            i > peak_index + 1 ==> right_min as int <= s[p + 1].magnitude,
            i == peak_index + 1 ==> right_min == u64::MAX,
        ensures
            right_scan_min(s, p, p + 1) == right_min as int,
            right_min as int <= s[p + 1].magnitude,
        decreases n - i,
    {
        if spectrum[i].magnitude > pm {
            proof {
                assert(right_scan_min(s, p, i as int) == u64::MAX as int);
                lemma_right_scan_min_nonneg(s, p, p + 1);
            }
            break ;
        }
        if spectrum[i].magnitude < right_min {
            right_min = spectrum[i].magnitude;
        }
        i = i + 1;
        proof {
            lemma_right_scan_min_nonneg(s, p, i as int);
        }
    }
    proof {
        lemma_right_scan_min_nonneg(s, p, p + 1);
    }
    let bounding_valley = if left_min > right_min {
        left_min
    } else {
        right_min
    };
    pm - bounding_valley
}

/// The candidates among the first `n` entries that pass the prominence
/// test against spectrum `s`, in order.
pub open spec fn spec_filter_upto(
    s: Seq<SpectrumBin>,
    candidates: Seq<SpectrumBin>,
    threshold: int,
    n: int,
) -> Seq<SpectrumBin>
    decreases n,
{
    if n <= 0 {
        Seq::empty()
    } else {
        let rest = spec_filter_upto(s, candidates, threshold, n - 1);
        if spec_prominence(s, candidates[n - 1].index as int) >= threshold {
            rest.push(candidates[n - 1])
        } else {
            rest
        }
    }
}

/// The candidates whose prominence against spectrum `s` reaches the
/// threshold, in order.
pub open spec fn spec_prominent_peaks(
    s: Seq<SpectrumBin>,
    candidates: Seq<SpectrumBin>,
    threshold: int,
) -> Seq<SpectrumBin> {
    spec_filter_upto(s, candidates, threshold, candidates.len() as int)
}

/// Keeps the candidates whose prominence reaches `threshold`.
pub fn filter_by_prominence(
    spectrum: &Vec<SpectrumBin>,
    candidates: &Vec<SpectrumBin>,
    threshold: u64,
) -> (r: Vec<SpectrumBin>)
    requires
        forall|k: int|
            0 <= k < candidates@.len() ==> is_peak_of(spectrum@, #[trigger] candidates@[k]),
    ensures
        r@ == spec_prominent_peaks(spectrum@, candidates@, threshold as int),
{
    let m = candidates.len();
    let mut out: Vec<SpectrumBin> = Vec::new();
    let mut k: usize = 0;
    while k < m
        invariant
            0 <= k <= m,
            m == candidates@.len(),
            forall|j: int|
                0 <= j < candidates@.len() ==> is_peak_of(spectrum@, #[trigger] candidates@[j]),
            out@ == spec_filter_upto(spectrum@, candidates@, threshold as int, k as int),
        decreases m - k,
    {
        let peak = candidates[k];
        let prominence = calculate_prominence(spectrum, peak.index);
        if prominence >= threshold {
            out.push(peak);
        }
        k = k + 1;
    }
    out
}

/// Prominence Filter: keeps the candidates whose prominence reaches one
/// quarter of the largest candidate magnitude.
pub fn get_prominent_peaks(spectrum: &Vec<SpectrumBin>, maxima: &Vec<SpectrumBin>) -> (r: Vec<
    SpectrumBin,
>)
    requires
        forall|k: int| 0 <= k < maxima@.len() ==> is_peak_of(spectrum@, #[trigger] maxima@[k]),
    ensures
        r@ == spec_prominent_peaks(
            spectrum@,
            maxima@,
            (spec_max_magnitude(maxima@) / 4) as int,
        ),
{
    let prominence_threshold = max_magnitude(maxima) / 4;
    filter_by_prominence(spectrum, maxima, prominence_threshold)
}

/// Every entry the prominence filter keeps is one of the candidates it
/// was given, still a peak of the same spectrum.
proof fn lemma_filter_upto_peaks(
    s: Seq<SpectrumBin>,
    candidates: Seq<SpectrumBin>,
    threshold: int,
    n: int,
)
    requires
        n <= candidates.len(),
        forall|k: int| 0 <= k < candidates.len() ==> is_peak_of(s, #[trigger] candidates[k]),
    ensures
        forall|k: int|
            0 <= k < spec_filter_upto(s, candidates, threshold, n).len() ==> is_peak_of(
                s,
                #[trigger] spec_filter_upto(s, candidates, threshold, n)[k],
            ),
    decreases n,
{
    if n > 0 {
        lemma_filter_upto_peaks(s, candidates, threshold, n - 1);
        let rest = spec_filter_upto(s, candidates, threshold, n - 1);
        let cur = spec_filter_upto(s, candidates, threshold, n);
        assert forall|k: int| 0 <= k < cur.len() implies is_peak_of(s, #[trigger] cur[k]) by {
            if spec_prominence(s, candidates[n - 1].index as int) >= threshold {
                assert(cur == rest.push(candidates[n - 1]));
                if k < rest.len() {
                    assert(cur[k] == rest[k]);
                } else {
                    assert(cur[k] == candidates[n - 1]);
                }
            } else {
                assert(cur[k] == rest[k]);
            }
        }
    }
}

/// With threshold zero the prominence filter keeps every peak, because a
/// peak's prominence is never negative.
proof fn lemma_filter_zero_keeps_all(s: Seq<SpectrumBin>, candidates: Seq<SpectrumBin>, n: int)
    requires
        0 <= n <= candidates.len(),
        forall|k: int| 0 <= k < candidates.len() ==> is_peak_of(s, #[trigger] candidates[k]),
    ensures
        spec_filter_upto(s, candidates, 0, n) == candidates.take(n),
    decreases n,
{
    if n <= 0 {
        assert(candidates.take(0) =~= Seq::<SpectrumBin>::empty());
    } else {
        lemma_filter_zero_keeps_all(s, candidates, n - 1);
        lemma_peak_prominence_bounds(s, candidates[n - 1]);
        assert(candidates.take(n - 1).push(candidates[n - 1]) =~= candidates.take(n));
    }
}

/// The Prominence Filter is idempotent: re-applying it to its own output
/// with threshold zero reproduces that output unchanged.
pub proof fn lemma_prominence_filter_idempotent(
    s: Seq<SpectrumBin>,
    candidates: Seq<SpectrumBin>,
    threshold: int,
)
    requires
        forall|k: int| 0 <= k < candidates.len() ==> is_peak_of(s, #[trigger] candidates[k]),
    ensures
        spec_prominent_peaks(s, spec_prominent_peaks(s, candidates, threshold), 0)
            == spec_prominent_peaks(s, candidates, threshold),
{
    let kept = spec_prominent_peaks(s, candidates, threshold);
    lemma_filter_upto_peaks(s, candidates, threshold, candidates.len() as int);
    lemma_filter_zero_keeps_all(s, kept, kept.len() as int);
    assert(kept.take(kept.len() as int) =~= kept);
}

} // verus!
