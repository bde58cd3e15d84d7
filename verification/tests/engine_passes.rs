use fourier_chords::engine::Analyzer;
use fourier_chords::engine::perform_analysis;
use fourier_chords::notes::get_note_data;
use fourier_chords::spectrum::get_spectrum_data;
use fourier_chords::spectrum::ComplexBin;
use rustfft::num_complex::Complex;
use rustfft::FftPlanner;

/// Raised-cosine taper in micro-units, mirrored so both halves agree
/// exactly after rounding.
fn hann_taper(n: usize) -> Vec<u64> {
    let mut taper: Vec<u64> = vec![0; n];
    for i in 0..n {
        let x = (2.0 * std::f64::consts::PI * i as f64 / (n as f64 - 1.0)).cos();
        taper[i] = ((0.5 - 0.5 * x) * 1_000_000.0).round() as u64;
    }
    for i in 0..n / 2 {
        let low = taper[i].min(taper[n - 1 - i]);
        taper[i] = low;
        taper[n - 1 - i] = low;
    }
    taper[0] = 0;
    taper[n - 1] = 0;
    taper
}

/// Feeds the mixed tones into the analyzer until a window completes,
/// transforms the windowed buffer, and returns the pass's notes.
fn analyze_tones(tones: &[(f64, f64)], sample_rate: u64, n: usize) -> (Vec<String>, Vec<ComplexBin>) {
    let mut analyzer = Analyzer::new(n, sample_rate, 1000, hann_taper(n)).expect("valid config");
    let mut t: u64 = 0;
    loop {
        let mut value = 0.0f64;
        for &(freq, amp) in tones {
            value += amp * (2.0 * std::f64::consts::PI * freq * t as f64 / sample_rate as f64).sin();
        }
        t += 1;
        let sample = (value * 1_000_000.0).round() as i64;
        if analyzer.accumulate(sample) {
            break;
        }
        assert!(t < 10 * n as u64, "window should fill from the tone");
    }
    let windowed = analyzer.windowed_values();
    let mut buffer: Vec<Complex<f32>> = windowed
        .iter()
        .map(|&w| Complex {
            re: (w as f64 / 1_000_000_000_000.0) as f32,
            im: 0.0,
        })
        .collect();
    let mut planner = FftPlanner::new();
    let fft = planner.plan_fft_forward(n);
    fft.process(&mut buffer);
    let bins: Vec<ComplexBin> = buffer
        .iter()
        .map(|c| ComplexBin {
            re: (c.re as f64 * 10_000.0).round() as i64,
            im: (c.im as f64 * 10_000.0).round() as i64,
        })
        .collect();
    let notes = analyzer.complete_pass(&bins);
    assert_eq!(analyzer.detected(), &notes);
    (notes, bins)
}

#[test]
fn rejects_degenerate_configuration() {
    assert!(Analyzer::new(1, 44_100, 0, vec![0]).is_none());
    assert!(Analyzer::new(8, 44_100, 0, hann_taper(16)).is_none());
    assert!(Analyzer::new(16, 0, 0, hann_taper(16)).is_none());
    let mut crooked = hann_taper(16);
    crooked[3] += 1;
    assert!(Analyzer::new(16, 44_100, 0, crooked).is_none());
    assert!(Analyzer::new(16, 44_100, 0, hann_taper(16)).is_some());
}

#[test]
fn gate_drops_quiet_samples() {
    let mut analyzer = Analyzer::new(4, 44_100, 1000, hann_taper(4)).expect("valid config");
    assert!(!analyzer.accumulate(500));
    assert!(!analyzer.accumulate(-1000));
    assert!(!analyzer.accumulate(0));
    assert!(!analyzer.accumulate(1001));
    assert!(!analyzer.accumulate(-2000));
    assert!(!analyzer.accumulate(3000));
    assert!(analyzer.accumulate(4000));
    assert!(analyzer.window_is_full());
    // a full window ignores further input until the pass completes
    assert!(analyzer.accumulate(5000));
    let windowed = analyzer.windowed_values();
    assert_eq!(windowed.len(), 4);
    assert_eq!(windowed[0], 0);
    assert_eq!(windowed[3], 0);
}

#[test]
fn reset_clears_buffer_and_snapshot() {
    let mut analyzer = Analyzer::new(4, 44_100, 0, hann_taper(4)).expect("valid config");
    assert!(!analyzer.accumulate(2000));
    analyzer.reset();
    assert!(!analyzer.window_is_full());
    assert_eq!(analyzer.detected().len(), 0);
    assert_eq!(analyzer.notes_display(), "None");
}

#[test]
fn silence_produces_no_notes() {
    let table = get_note_data();
    let bins = vec![ComplexBin { re: 0, im: 0 }; 64];
    let notes = perform_analysis(&bins, 44_100, &table);
    assert!(notes.is_empty());

    let mut analyzer = Analyzer::new(64, 44_100, 0, hann_taper(64)).expect("valid config");
    for _ in 0..64 {
        analyzer.accumulate(250_000);
    }
    let notes = analyzer.complete_pass(&vec![ComplexBin { re: 0, im: 0 }; 64]);
    assert!(notes.is_empty());
    assert_eq!(analyzer.notes_display(), "None");
}

#[test]
fn single_tone_resolves_to_a4() {
    let (notes, bins) = analyze_tones(&[(440.0, 0.5)], 44_100, 1024);
    assert_eq!(notes, vec!["A4".to_string()]);

    // the dominant bin lies within one frequency resolution of 440 Hz
    let spectrum = get_spectrum_data(&bins, 44_100);
    let dominant = spectrum
        .iter()
        .max_by_key(|bin| bin.magnitude)
        .expect("spectrum is not empty");
    let resolution_millihz = 44_100u64 * 1000 / 1024;
    let distance = dominant.frequency_millihz.abs_diff(440_000);
    assert!(distance <= resolution_millihz);
}

#[test]
fn two_tones_resolve_to_a4_and_a5() {
    let (notes, _) = analyze_tones(&[(440.0, 0.4), (880.0, 0.4)], 44_100, 1024);
    assert_eq!(notes, vec!["A4".to_string(), "A5".to_string()]);
}
