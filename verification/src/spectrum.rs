//! Magnitude Spectrum Builder: turns the complex output of the forward
//! transform into (frequency, magnitude) bins, up to the Nyquist limit.
//!
//! Frequencies are milli-Hz; magnitudes are the floor of the Euclidean
//! norm of the integer complex components.

use vstd::prelude::*;

verus! {

use crate::math::abs_value;
use crate::math::sqrt_floor;
use crate::math::abs_i64;
use crate::math::isqrt;
use crate::BIN_COMPONENT_LIMIT;
use crate::MAX_WINDOW_SIZE;
use crate::MAX_SAMPLE_RATE;

/// One complex value of the transform output, with fixed-point components.
#[derive(Clone, Copy, Debug, PartialEq, Eq, Structural)]
pub struct ComplexBin {
    pub re: i64,
    pub im: i64,
}

/// One bin of the magnitude spectrum.
#[derive(Clone, Copy, Debug, PartialEq, Eq, Structural)]
pub struct SpectrumBin {
    /// Position of the bin in the spectrum.
    pub index: usize,
    /// Center frequency of the bin, in milli-Hz.
    pub frequency_millihz: u64,
    /// Floor of the Euclidean norm of the complex value.
    pub magnitude: u64,
}

/// Squared Euclidean norm of a complex bin.
pub open spec fn norm_sq(b: ComplexBin) -> int {
    (b.re as int) * (b.re as int) + (b.im as int) * (b.im as int)
}

/// Both components of every bin lie within the accepted range.
pub open spec fn bins_bounded(bins: Seq<ComplexBin>) -> bool {
    forall|i: int|
        0 <= i < bins.len() ==> abs_value((#[trigger] bins[i]).re as int) <= BIN_COMPONENT_LIMIT
            && abs_value(bins[i].im as int) <= BIN_COMPONENT_LIMIT
}

/// Center frequency of bin `i`, in milli-Hz: `i` times the frequency
/// resolution `sample_rate / sample_count`, rounded down.
pub open spec fn spec_bin_freq(i: int, sample_rate: int, sample_count: int) -> int {
    (i * sample_rate * 1000) / sample_count
}

/// The magnitude spectrum of a transform output: one bin per index below
/// the Nyquist limit `floor(sample_count / 2)`, where `sample_count` is
/// the number of complex values.
pub open spec fn spec_spectrum(bins: Seq<ComplexBin>, sample_rate: int) -> Seq<SpectrumBin> {
    Seq::new(
        (bins.len() / 2) as nat,
        |i: int|
            SpectrumBin {
                index: i as usize,
                frequency_millihz: spec_bin_freq(i, sample_rate, bins.len() as int) as u64,
                magnitude: sqrt_floor(norm_sq(bins[i]) as nat) as u64,
            },
    )
}

/// Each bin of a spectrum records its own position.
pub open spec fn wf_spectrum(s: Seq<SpectrumBin>) -> bool {
    forall|i: int| 0 <= i < s.len() ==> (#[trigger] s[i]).index == i
}

/// Builds the magnitude spectrum from the transform output. Only bins
/// below the Nyquist limit are produced; the upper half of the transform
/// of a real-valued input is its conjugate mirror and is never read.
pub fn get_spectrum_data(bins: &Vec<ComplexBin>, sample_rate: u64) -> (r: Vec<SpectrumBin>)
    requires
        bins@.len() <= MAX_WINDOW_SIZE,
        1 <= sample_rate <= MAX_SAMPLE_RATE,
        bins_bounded(bins@),
    ensures
        r@ == spec_spectrum(bins@, sample_rate as int),
        r@.len() == bins@.len() / 2,
        wf_spectrum(r@),
{
    let n = bins.len();
    let nyquist_limit = n / 2;
    let mut out: Vec<SpectrumBin> = Vec::new();
    let mut i: usize = 0;
    while i < nyquist_limit
        invariant
            0 <= i <= nyquist_limit,
            nyquist_limit == n / 2,
            n == bins@.len() <= MAX_WINDOW_SIZE,
            1 <= sample_rate <= MAX_SAMPLE_RATE,
            bins_bounded(bins@),
            out@.len() == i,
            forall|j: int|
                0 <= j < i ==> #[trigger] out@[j] == spec_spectrum(bins@, sample_rate as int)[j],
        decreases nyquist_limit - i,
    {
        proof {
            assert((i as int) * (sample_rate as int) <= 16_777_216 * 1_000_000)
                by (nonlinear_arith)
                requires
                    0 <= i as int <= 16_777_216,
                    0 <= sample_rate as int <= 1_000_000,
            ;
        }
        let frequency_millihz = (i as u64 * sample_rate * 1000) / (n as u64);
        let b = bins[i];
        let ra = abs_i64(b.re);
        let ia = abs_i64(b.im);
        proof {
            assert((ra as int) * (ra as int) == (b.re as int) * (b.re as int)
                && (ra as int) * (ra as int) <= 2_147_483_648 * 2_147_483_648)
                by (nonlinear_arith)
                requires
                    ra as int == b.re as int || ra as int == -(b.re as int),
                    0 <= ra as int <= 2_147_483_648,
            ;
            assert((ia as int) * (ia as int) == (b.im as int) * (b.im as int)
                && (ia as int) * (ia as int) <= 2_147_483_648 * 2_147_483_648)
                by (nonlinear_arith)
                requires
                    ia as int == b.im as int || ia as int == -(b.im as int),
                    0 <= ia as int <= 2_147_483_648,
            ;
        }
        let magnitude = isqrt(ra * ra + ia * ia);
        let bin = SpectrumBin { index: i, frequency_millihz, magnitude };
        proof {
            assert(bin == spec_spectrum(bins@, sample_rate as int)[i as int]);
        }
        out.push(bin);
        i = i + 1;
    }
    proof {
        assert(out@ =~= spec_spectrum(bins@, sample_rate as int));
    }
    out
}

/// Largest magnitude among the bins of a spectrum; an empty spectrum has
/// maximum zero.
pub open spec fn spec_max_magnitude(s: Seq<SpectrumBin>) -> u64
    decreases s.len(),
{
    if s.len() == 0 {
        0
    } else {
        let m = spec_max_magnitude(s.drop_last());
        if s.last().magnitude > m {
            s.last().magnitude
        } else {
            m
        }
    }
}

/// Largest magnitude found in the spectrum. Applied to an empty spectrum
/// it returns the sentinel value zero — the one fixed fallback every
/// caller sees, so the derived thresholds of an empty pass are zero too.
pub fn max_magnitude(spectrum: &Vec<SpectrumBin>) -> (r: u64)
    ensures
        r == spec_max_magnitude(spectrum@),
        forall|i: int| 0 <= i < spectrum@.len() ==> (#[trigger] spectrum@[i]).magnitude <= r,
        spectrum@.len() == 0 ==> r == 0,
{
    let n = spectrum.len();
    let mut m: u64 = 0;
    let mut i: usize = 0;
    while i < n
        invariant
            0 <= i <= n,
            n == spectrum@.len(),
            m == spec_max_magnitude(spectrum@.take(i as int)),
            forall|j: int| 0 <= j < i ==> (#[trigger] spectrum@[j]).magnitude <= m,
        decreases n - i,
    {
        proof {
            assert(spectrum@.take(i + 1).drop_last() =~= spectrum@.take(i as int));
            assert(spectrum@.take(i + 1).last() == spectrum@[i as int]);
        }
        if spectrum[i].magnitude > m {
            m = spectrum[i].magnitude;
        }
        i = i + 1;
    }
    proof {
        assert(spectrum@.take(n as int) =~= spectrum@);
    }
    m
}

} // verus!
