//! Analysis Pipeline Orchestrator: accumulates samples across
//! host-delivered blocks, and runs the per-pass stages in order once a
//! window is complete.
//!
//! The forward transform runs outside the library: when a window is
//! full, the caller takes the windowed buffer, transforms it, and hands
//! the complex output back to `complete_pass` as integer bins.

use vstd::prelude::*;

verus! {

use vstd::string::StringExecFns;
use crate::math::abs_value;
use crate::math::abs_i64;
use crate::window::hann_shaped;
use crate::window::samples_bounded;
use crate::window::spec_windowed;
use crate::window::validate_taper;
use crate::window::apply_window_function;
use crate::spectrum::ComplexBin;
use crate::spectrum::SpectrumBin;
use crate::spectrum::bins_bounded;
use crate::spectrum::spec_spectrum;
use crate::spectrum::spec_max_magnitude;
use crate::spectrum::wf_spectrum;
use crate::spectrum::get_spectrum_data;
use crate::peaks::is_candidate;
use crate::peaks::spec_local_maxima;
use crate::peaks::spec_local_maxima_upto;
use crate::peaks::spec_prominent_peaks;
use crate::peaks::get_local_maxima;
use crate::peaks::get_prominent_peaks;
use crate::notes::NoteEntry;
use crate::notes::NOTE_COUNT;
use crate::notes::spec_note_freq;
use crate::notes::spec_note_name;
use crate::notes::spec_resolved_notes;
use crate::notes::get_note_data;
use crate::notes::resolve_notes;
use crate::SAMPLE_LIMIT;
use crate::MAX_WINDOW_SIZE;
use crate::MAX_SAMPLE_RATE;

/// The views of a sequence of note-name strings.
pub open spec fn deep_notes(v: Seq<String>) -> Seq<Seq<char>> {
    Seq::new(v.len(), |i: int| v[i]@)
}

/// Detected Notes for a magnitude spectrum: candidates by strict local
/// maxima over one third of the peak magnitude, filtered by prominence
/// against one quarter of the tallest candidate, resolved and
/// de-duplicated against the table.
pub open spec fn spec_identify(s: Seq<SpectrumBin>, table: Seq<NoteEntry>) -> Seq<Seq<char>> {
    let maxima = spec_local_maxima(s, spec_max_magnitude(s) / 3);
    let peaks = spec_prominent_peaks(s, maxima, (spec_max_magnitude(maxima) / 4) as int);
    spec_resolved_notes(peaks, table)
}

/// Detected Notes for a transform output: the spectrum of the bins below
/// the Nyquist limit, run through `spec_identify`.
pub open spec fn spec_analysis(
    bins: Seq<ComplexBin>,
    sample_rate: int,
    table: Seq<NoteEntry>,
) -> Seq<Seq<char>> {
    spec_identify(spec_spectrum(bins, sample_rate), table)
}

/// Runs candidate extraction, the prominence filter and note resolution
/// over a magnitude spectrum.
pub fn identify_notes(spectrum: &Vec<SpectrumBin>, table: &Vec<NoteEntry>) -> (r: Vec<String>)
    requires
        wf_spectrum(spectrum@),
        table@.len() > 0,
    ensures
        deep_notes(r@) == spec_identify(spectrum@, table@),
{
    let local_maxima = get_local_maxima(spectrum);
    let prominent_peaks = get_prominent_peaks(spectrum, &local_maxima);
    let r = resolve_notes(&prominent_peaks, table);
    proof {
        assert(deep_notes(r@) =~= spec_identify(spectrum@, table@));
    }
    r
}

/// Runs a full analysis pass over a transform output: magnitude
/// spectrum, then note identification.
pub fn perform_analysis(bins: &Vec<ComplexBin>, sample_rate: u64, table: &Vec<NoteEntry>) -> (r:
    Vec<String>)
    requires
        bins@.len() <= MAX_WINDOW_SIZE,
        1 <= sample_rate <= MAX_SAMPLE_RATE,
        bins_bounded(bins@),
        table@.len() > 0,
    ensures
        deep_notes(r@) == spec_analysis(bins@, sample_rate as int, table@),
{
    let spectrum_data = get_spectrum_data(bins, sample_rate);
    identify_notes(&spectrum_data, table)
}

proof fn lemma_max_magnitude_zero(s: Seq<SpectrumBin>)
    requires
        forall|i: int| 0 <= i < s.len() ==> (#[trigger] s[i]).magnitude == 0,
    ensures
        spec_max_magnitude(s) == 0,
    decreases s.len(),
{
    if s.len() > 0 {
        lemma_max_magnitude_zero(s.drop_last());
    }
}

proof fn lemma_no_candidates(s: Seq<SpectrumBin>, threshold: u64, n: int)
    requires
        forall|i: int| !is_candidate(s, threshold, i),
    ensures
        spec_local_maxima_upto(s, threshold, n) == Seq::<SpectrumBin>::empty(),
    decreases n,
{
    if n > 1 {
        lemma_no_candidates(s, threshold, n - 1);
    }
}

/// Silence produces no notes: a pass over an all-zero transform output
/// yields an empty Detected Notes sequence.
pub proof fn lemma_silence_yields_no_notes(
    bins: Seq<ComplexBin>,
    sample_rate: int,
    table: Seq<NoteEntry>,
)
    requires
        forall|i: int| 0 <= i < bins.len() ==> (#[trigger] bins[i]).re == 0 && bins[i].im == 0,
    ensures
        spec_analysis(bins, sample_rate, table) == Seq::<Seq<char>>::empty(),
{
    let s = spec_spectrum(bins, sample_rate);
    assert forall|i: int| 0 <= i < s.len() implies (#[trigger] s[i]).magnitude == 0 by {
        assert(bins[i].re == 0 && bins[i].im == 0);
        assert(crate::spectrum::norm_sq(bins[i]) == 0);
        assert(crate::math::sqrt_floor(0) == 0);
    }
    lemma_max_magnitude_zero(s);
    assert forall|i: int| !is_candidate(s, 0, i) by {
        if 1 <= i <= s.len() - 2 {
            assert(s[i].magnitude == 0 && s[i - 1].magnitude == 0);
        }
    }
    lemma_no_candidates(s, 0, s.len() - 1);
    let maxima = spec_local_maxima(s, 0);
    lemma_max_magnitude_zero(maxima);
    assert(spec_prominent_peaks(s, maxima, 0) == Seq::<SpectrumBin>::empty());
    assert(spec_resolved_notes(Seq::<SpectrumBin>::empty(), table) == Seq::<Seq<char>>::empty());
}

/// The notes of a pass joined with a comma and a space.
pub open spec fn spec_joined(names: Seq<Seq<char>>) -> Seq<char>
    decreases names.len(),
{
    if names.len() == 0 {
        Seq::empty()
    } else if names.len() == 1 {
        names[0]
    } else {
        spec_joined(names.drop_last()) + ", "@ + names.last()
    }
}

/// The text shown for a pass: the joined notes, or "None" when the pass
/// detected nothing.
pub open spec fn spec_display(names: Seq<Seq<char>>) -> Seq<char> {
    if names.len() == 0 {
        "None"@
    } else {
        spec_joined(names)
    }
}

/// Renders the Detected Notes of a pass for presentation.
pub fn format_detected_notes(notes: &Vec<String>) -> (r: String)
    ensures
        r@ == spec_display(deep_notes(notes@)),
{
    let n = notes.len();
    if n == 0 {
        proof {
            assert(deep_notes(notes@).len() == 0);
        }
        return "None".to_owned();
    }
    let mut out = notes[0].clone();
    let mut i: usize = 1;
    proof {
        assert(out@ == spec_joined(deep_notes(notes@).take(1)));
    }
    while i < n
        invariant
            1 <= i <= n,
            n == notes@.len(),
            out@ == spec_joined(deep_notes(notes@).take(i as int)),
        decreases n - i,
    {
        let ghost names = deep_notes(notes@);
        out.append(", ");
        out.append(notes[i].as_str());
        proof {
            assert(names.take(i + 1).drop_last() =~= names.take(i as int));
            assert(names.take(i + 1).last() == names[i as int]);
            assert(names.take(i + 1).len() == i + 1 >= 2);
        }
        i = i + 1;
    }
    proof {
        assert(deep_notes(notes@).take(n as int) =~= deep_notes(notes@));
    }
    out
}

/// Clones a pass's note list, name by name.
fn clone_notes(notes: &Vec<String>) -> (r: Vec<String>)
    ensures
        r@ == notes@,
{
    let n = notes.len();
    let mut out: Vec<String> = Vec::new();
    let mut i: usize = 0;
    while i < n
        invariant
            0 <= i <= n,
            n == notes@.len(),
            out@ =~= notes@.take(i as int),
        decreases n - i,
    {
        out.push(notes[i].clone());
        i = i + 1;
    }
    proof {
        assert(notes@.take(n as int) =~= notes@);
    }
    out
}

/// The analysis engine: the sample buffer carried across audio
/// callbacks, the fixed session configuration, and the Detected Notes
/// snapshot of the most recently completed pass.
pub struct Analyzer {
    window_size: usize,
    sample_rate: u64,
    gate: u64,
    taper: Vec<u64>,
    samples: Vec<i64>,
    note_table: Vec<NoteEntry>,
    detected_notes: Vec<String>,
}

impl Analyzer {
    /// The engine configuration is fixed for the session and every
    /// buffered sample respects the amplitude limit.
    pub closed spec fn wf(self) -> bool {
        &&& 2 <= self.window_size <= MAX_WINDOW_SIZE
        &&& 1 <= self.sample_rate <= MAX_SAMPLE_RATE
        &&& self.taper@.len() == self.window_size
        &&& hann_shaped(self.taper@)
        &&& self.samples@.len() <= self.window_size
        &&& samples_bounded(self.samples@)
        &&& self.note_table@.len() == NOTE_COUNT
        &&& forall|i: int|
            0 <= i < NOTE_COUNT ==> (#[trigger] self.note_table@[i]).frequency_millihz
                == spec_note_freq(i) && self.note_table@[i].name@ == spec_note_name(i)
    }

    /// Configured window length, in samples.
    pub closed spec fn window_len(self) -> int {
        self.window_size as int
    }

    /// Configured sample rate, in Hz.
    pub closed spec fn rate(self) -> int {
        self.sample_rate as int
    }

    /// Amplitude gate below which incoming samples are dropped.
    pub closed spec fn gate_level(self) -> int {
        self.gate as int
    }

    /// The taper applied to each completed window.
    pub closed spec fn taper_view(self) -> Seq<u64> {
        self.taper@
    }

    /// The samples accumulated toward the current window.
    pub closed spec fn samples_view(self) -> Seq<i64> {
        self.samples@
    }

    /// The Note Table the resolver matches against.
    pub closed spec fn table_view(self) -> Seq<NoteEntry> {
        self.note_table@
    }

    /// The Detected Notes snapshot of the last completed pass.
    pub closed spec fn notes_view(self) -> Seq<Seq<char>> {
        deep_notes(self.detected_notes@)
    }

    /// The session configuration of `self` and `other` agree.
    pub open spec fn same_config(self, other: Analyzer) -> bool {
        &&& self.window_len() == other.window_len()
        &&& self.rate() == other.rate()
        &&& self.gate_level() == other.gate_level()
        &&& self.taper_view() == other.taper_view()
        &&& self.table_view() == other.table_view()
    }

    /// Sets up an engine for a session. Fails fast on a configuration
    /// fault: a degenerate or oversized window, a sample rate out of
    /// range, or a taper that does not have the raised-cosine shape.
    pub fn new(window_size: usize, sample_rate: u64, gate: u64, taper: Vec<u64>) -> (r: Option<
        Analyzer,
    >)
        ensures
            r is Some <==> {
                &&& 2 <= window_size <= MAX_WINDOW_SIZE
                &&& 1 <= sample_rate <= MAX_SAMPLE_RATE
                &&& taper@.len() == window_size
                &&& hann_shaped(taper@)
            },
            r matches Some(a) ==> {
                &&& a.wf()
                &&& a.window_len() == window_size
                &&& a.rate() == sample_rate
                &&& a.gate_level() == gate
                &&& a.taper_view() == taper@
                &&& a.samples_view() == Seq::<i64>::empty()
                &&& a.notes_view() == Seq::<Seq<char>>::empty()
                &&& a.table_view().len() == NOTE_COUNT
                &&& forall|i: int|
                    0 <= i < NOTE_COUNT ==> (#[trigger] a.table_view()[i]).frequency_millihz
                        == spec_note_freq(i) && a.table_view()[i].name@ == spec_note_name(i)
            },
    {
        if window_size < 2 || window_size > MAX_WINDOW_SIZE {
            return None;
        }
        if sample_rate < 1 || sample_rate > MAX_SAMPLE_RATE {
            return None;
        }
        if taper.len() != window_size {
            return None;
        }
        if !validate_taper(&taper) {
            return None;
        }
        let a = Analyzer {
            window_size,
            sample_rate,
            gate,
            taper,
            samples: Vec::new(),
            note_table: get_note_data(),
            detected_notes: Vec::new(),
        };
        proof {
            assert(a.notes_view() =~= Seq::<Seq<char>>::empty());
        }
        Some(a)
    }

    /// Whether a full window of samples has been accumulated.
    pub fn window_is_full(&self) -> (r: bool)
        ensures
            r == (self.samples_view().len() == self.window_len()),
    {
        self.samples.len() == self.window_size
    }

    /// Accepts one incoming sample. A sample whose amplitude does not
    /// exceed the configured noise level is dropped to reduce buffer
    /// churn; any other is appended until the window is full. Returns
    /// whether a full window is now ready.
    pub fn accumulate(&mut self, sample: i64) -> (ready: bool)
        requires
            old(self).wf(),
            abs_value(sample as int) <= SAMPLE_LIMIT,
        ensures
            final(self).wf(),
            final(self).same_config(*old(self)),
            final(self).notes_view() == old(self).notes_view(),
            final(self).samples_view() == if old(self).samples_view().len() < old(
                self,
            ).window_len() && abs_value(sample as int) > old(self).gate_level() {
                old(self).samples_view().push(sample)
            } else {
                old(self).samples_view()
            },
            ready == (final(self).samples_view().len() == final(self).window_len()),
    {
        if self.samples.len() < self.window_size && abs_i64(sample) > self.gate {
            self.samples.push(sample);
        }
        self.samples.len() == self.window_size
    }

    /// The windowed buffer for the completed window: each accumulated
    /// sample scaled by its taper coefficient. The caller transforms
    /// this buffer and hands the complex output to `complete_pass`.
    pub fn windowed_values(&self) -> (r: Vec<i64>)
        requires
            self.wf(),
            self.samples_view().len() == self.window_len(),
        ensures
            r@ == spec_windowed(self.samples_view(), self.taper_view()),
    {
        apply_window_function(&self.samples, &self.taper)
    }

    /// Completes a pass from the transform output of the current
    /// window: builds the magnitude spectrum, identifies the notes,
    /// publishes them as the new snapshot, and clears the sample buffer
    /// for the next accumulation. The transform output must have
    /// exactly the window length; a mismatch is a configuration fault
    /// the caller must fail fast on.
    pub fn complete_pass(&mut self, bins: &Vec<ComplexBin>) -> (notes: Vec<String>)
        requires
            old(self).wf(),
            old(self).samples_view().len() == old(self).window_len(),
            bins@.len() == old(self).window_len(),
            bins_bounded(bins@),
        ensures
            final(self).wf(),
            final(self).same_config(*old(self)),
            final(self).samples_view() == Seq::<i64>::empty(),
            deep_notes(notes@) == spec_analysis(bins@, old(self).rate(), old(self).table_view()),
            final(self).notes_view() == deep_notes(notes@),
    {
        let notes = perform_analysis(bins, self.sample_rate, &self.note_table);
        self.detected_notes = clone_notes(&notes);
        self.samples.clear();
        proof {
            assert(self.samples_view() =~= Seq::<i64>::empty());
        }
        notes
    }

    /// The Detected Notes snapshot of the most recently completed pass.
    pub fn detected(&self) -> (r: &Vec<String>)
        ensures
            deep_notes(r@) == self.notes_view(),
    {
        &self.detected_notes
    }

    /// Renders the current snapshot for presentation: the note names
    /// joined by a comma and a space, or "None" when the last pass
    /// detected nothing.
    pub fn notes_display(&self) -> (r: String)
        ensures
            r@ == spec_display(self.notes_view()),
    {
        format_detected_notes(&self.detected_notes)
    }

    /// Discards the accumulated samples and the published snapshot.
    pub fn reset(&mut self)
        requires
            old(self).wf(),
        ensures
            final(self).wf(),
            final(self).same_config(*old(self)),
            final(self).samples_view() == Seq::<i64>::empty(),
            final(self).notes_view() == Seq::<Seq<char>>::empty(),
    {
        self.samples.clear();
        self.detected_notes.clear();
        proof {
            assert(self.samples_view() =~= Seq::<i64>::empty());
            assert(self.notes_view() =~= Seq::<Seq<char>>::empty());
        }
    }
}

} // verus!
