//! Windowing stage: applies a raised-cosine taper to a block of samples
//! before the spectral transform.
//!
//! Taper coefficients are fixed-point values in `[0, TAPER_ONE]`. A valid
//! raised-cosine taper is zero at both ends and symmetric about its
//! center; `validate_taper` checks exactly that, so the shape facts below
//! hold of every accepted taper.

use vstd::prelude::*;

verus! {

use crate::math::abs_value;
use crate::SAMPLE_LIMIT;
use crate::TAPER_ONE;

/// Shape of a raised-cosine taper of length at least two: coefficients
/// bounded by `TAPER_ONE`, zero at both ends, and symmetric.
pub open spec fn hann_shaped(taper: Seq<u64>) -> bool {
    &&& taper.len() >= 2
    &&& taper[0] == 0
    &&& taper[taper.len() - 1] == 0
    &&& forall|i: int| 0 <= i < taper.len() ==> taper[i] <= TAPER_ONE
    &&& forall|i: int| 0 <= i < taper.len() ==> #[trigger] taper[i] == taper[taper.len() - 1 - i]
}

/// The windowed buffer: each sample scaled by its taper coefficient,
/// kept as the exact integer product.
pub open spec fn spec_windowed(samples: Seq<i64>, taper: Seq<u64>) -> Seq<i64> {
    Seq::new(samples.len(), |i: int| ((samples[i] as int) * (taper[i] as int)) as i64)
}

/// All samples of a buffer lie within the accepted amplitude range.
pub open spec fn samples_bounded(samples: Seq<i64>) -> bool {
    forall|i: int| 0 <= i < samples.len() ==> abs_value(samples[i] as int) <= SAMPLE_LIMIT
}

/// Checks that a candidate taper has the raised-cosine shape.
pub fn validate_taper(taper: &Vec<u64>) -> (r: bool)
    ensures
        r == hann_shaped(taper@),
{
    let n = taper.len();
    if n < 2 {
        return false;
    }
    if taper[0] != 0 || taper[n - 1] != 0 {
        return false;
    }
    let mut i: usize = 0;
    while i < n
        invariant
            0 <= i <= n,
            n == taper@.len(),
            forall|j: int| 0 <= j < i ==> taper@[j] <= TAPER_ONE,
            forall|j: int| 0 <= j < i ==> #[trigger] taper@[j] == taper@[n - 1 - j],
        decreases n - i,
    {
        if taper[i] > TAPER_ONE {
            return false;
        }
        if taper[i] != taper[n - 1 - i] {
            return false;
        }
        i = i + 1;
    }
    true
}

/// Applies the taper to a sample buffer, element by element. The product
/// of a bounded sample and a bounded coefficient always fits, so the
/// output is the exact product.
pub fn apply_window_function(samples: &Vec<i64>, taper: &Vec<u64>) -> (r: Vec<i64>)
    requires
        samples@.len() == taper@.len(),
        samples_bounded(samples@),
        forall|i: int| 0 <= i < taper@.len() ==> taper@[i] <= TAPER_ONE,
    ensures
        r@ == spec_windowed(samples@, taper@),
{
    let n = samples.len();
    let mut out: Vec<i64> = Vec::new();
    let mut i: usize = 0;
    while i < n
        invariant
            0 <= i <= n,
            n == samples@.len() == taper@.len(),
            samples_bounded(samples@),
            forall|j: int| 0 <= j < n ==> taper@[j] <= TAPER_ONE,
            out@.len() == i,
            forall|j: int| 0 <= j < i ==> out@[j] == samples@[j] * taper@[j],
        decreases n - i,
    {
        let s = samples[i];
        let c = taper[i];
        proof {
            assert(abs_value(s as int) <= SAMPLE_LIMIT);
            assert(-1_000_000_000_000_000 <= (s as int) * (c as int) <= 1_000_000_000_000_000)
                by (nonlinear_arith)
                requires
                    -1_000_000_000 <= s as int <= 1_000_000_000,
                    0 <= c as int <= 1_000_000,
            ;
        }
        let w = s * (c as i64);
        out.push(w);
        i = i + 1;
    }
    proof {
        assert(out@ =~= spec_windowed(samples@, taper@));
    }
    out
}

/// The windowed buffer keeps the input length and is exactly zero at both
/// ends, because a raised-cosine taper is zero there.
pub proof fn lemma_window_shape(samples: Seq<i64>, taper: Seq<u64>)
    requires
        samples.len() == taper.len(),
        hann_shaped(taper),
    ensures
        spec_windowed(samples, taper).len() == samples.len(),
        spec_windowed(samples, taper)[0] == 0,
        spec_windowed(samples, taper)[samples.len() - 1] == 0,
{
    let w = spec_windowed(samples, taper);
    assert(w[0] == samples[0] * taper[0]);
    assert(w[samples.len() - 1] == samples[samples.len() - 1] * taper[taper.len() - 1]);
}

/// For a constant-amplitude input, the windowed buffer is symmetric about
/// its center index, because the taper is.
pub proof fn lemma_window_symmetric(samples: Seq<i64>, taper: Seq<u64>, c: i64)
    requires
        samples.len() == taper.len(),
        hann_shaped(taper),
        forall|i: int| 0 <= i < samples.len() ==> samples[i] == c,
    ensures
        forall|i: int|
            0 <= i < samples.len() ==> #[trigger] spec_windowed(samples, taper)[i]
                == spec_windowed(samples, taper)[samples.len() - 1 - i],
{
    let w = spec_windowed(samples, taper);
    assert forall|i: int| 0 <= i < samples.len() implies #[trigger] w[i] == w[samples.len() - 1
        - i] by {
        let n = samples.len();
        assert(samples[i] == c);
        assert(samples[n - 1 - i] == c);
        assert(taper[i] == taper[n - 1 - i]);
    }
}

} // verus!
