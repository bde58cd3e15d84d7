use fourier_chords::math::dist_u64;
use fourier_chords::math::isqrt;
use fourier_chords::peaks::calculate_prominence;
use fourier_chords::peaks::filter_by_prominence;
use fourier_chords::peaks::get_local_maxima;
use fourier_chords::peaks::get_prominent_peaks;
use fourier_chords::spectrum::get_spectrum_data;
use fourier_chords::spectrum::max_magnitude;
use fourier_chords::spectrum::ComplexBin;
use fourier_chords::spectrum::SpectrumBin;
use fourier_chords::window::apply_window_function;
use fourier_chords::window::validate_taper;

fn bins_from_magnitudes(magnitudes: &[u64]) -> Vec<SpectrumBin> {
    magnitudes
        .iter()
        .enumerate()
        .map(|(index, &magnitude)| SpectrumBin {
            index,
            frequency_millihz: index as u64 * 1000,
            magnitude,
        })
        .collect()
}

#[test]
fn isqrt_exact_values() {
    assert_eq!(isqrt(0), 0);
    assert_eq!(isqrt(1), 1);
    assert_eq!(isqrt(3), 1);
    assert_eq!(isqrt(4), 2);
    assert_eq!(isqrt(15), 3);
    assert_eq!(isqrt(16), 4);
    assert_eq!(isqrt(24_999_999), 4999);
    assert_eq!(isqrt(u64::MAX), 4_294_967_295);
}

#[test]
fn dist_is_symmetric_difference() {
    assert_eq!(dist_u64(7, 3), 4);
    assert_eq!(dist_u64(3, 7), 4);
    assert_eq!(dist_u64(5, 5), 0);
}

#[test]
fn taper_validation_accepts_hann_shape() {
    let taper: Vec<u64> = vec![0, 500_000, 1_000_000, 1_000_000, 500_000, 0];
    assert!(validate_taper(&taper));
}

#[test]
fn taper_validation_rejects_bad_shapes() {
    // too short
    assert!(!validate_taper(&vec![0]));
    // nonzero ends
    assert!(!validate_taper(&vec![1, 500_000, 500_000, 1]));
    // asymmetric
    assert!(!validate_taper(&vec![0, 400_000, 500_000, 0]));
    // coefficient above one
    assert!(!validate_taper(&vec![0, 1_000_001, 1_000_001, 0]));
}

#[test]
fn windowing_is_the_exact_elementwise_product() {
    let samples: Vec<i64> = vec![3, -2, 5, 7];
    let taper: Vec<u64> = vec![0, 250_000, 250_000, 0];
    let windowed = apply_window_function(&samples, &taper);
    assert_eq!(windowed, vec![0, -500_000, 1_250_000, 0]);
}

#[test]
fn windowed_constant_input_is_symmetric_and_zero_at_ends() {
    // raised-cosine taper of length 8, micro-unit coefficients
    let n = 8usize;
    let mut taper: Vec<u64> = vec![0; n];
    for i in 0..n {
        let x = (2.0 * std::f64::consts::PI * i as f64 / (n as f64 - 1.0)).cos();
        taper[i] = ((0.5 - 0.5 * x) * 1_000_000.0).round() as u64;
    }
    for i in 0..n / 2 {
        let mirrored = taper[n - 1 - i];
        taper[i] = mirrored.min(taper[i]);
        taper[n - 1 - i] = taper[i];
    }
    assert!(validate_taper(&taper));
    let samples: Vec<i64> = vec![123_456; n];
    let windowed = apply_window_function(&samples, &taper);
    assert_eq!(windowed.len(), n);
    assert_eq!(windowed[0], 0);
    assert_eq!(windowed[n - 1], 0);
    for i in 0..n {
        assert_eq!(windowed[i], windowed[n - 1 - i]);
    }
}

#[test]
fn max_magnitude_of_empty_spectrum_is_zero() {
    // the pinned sentinel for an empty spectrum
    assert_eq!(max_magnitude(&Vec::new()), 0);
}

#[test]
fn max_magnitude_finds_the_largest_bin() {
    let spectrum = bins_from_magnitudes(&[5, 3, 9, 9, 2]);
    assert_eq!(max_magnitude(&spectrum), 9);
}

#[test]
fn spectrum_covers_half_the_bins_with_exact_magnitudes() {
    let bins = vec![
        ComplexBin { re: 3, im: 4 },
        ComplexBin { re: 0, im: 0 },
        ComplexBin { re: -3, im: -4 },
        ComplexBin { re: 1, im: 1 },
        ComplexBin { re: 9, im: 9 },
        ComplexBin { re: 9, im: 9 },
        ComplexBin { re: 9, im: 9 },
        ComplexBin { re: 9, im: 9 },
    ];
    let spectrum = get_spectrum_data(&bins, 1000);
    assert_eq!(spectrum.len(), 4);
    // frequency resolution: 1000 Hz / 8 samples = 125 Hz per bin
    for (i, bin) in spectrum.iter().enumerate() {
        assert_eq!(bin.index, i);
        assert_eq!(bin.frequency_millihz, i as u64 * 125_000);
    }
    assert_eq!(spectrum[0].magnitude, 5);
    assert_eq!(spectrum[1].magnitude, 0);
    assert_eq!(spectrum[2].magnitude, 5);
    assert_eq!(spectrum[3].magnitude, 1);
}

#[test]
fn local_maxima_requires_strictly_taller_neighbors() {
    let spectrum = bins_from_magnitudes(&[0, 10, 0, 9, 9, 2, 0]);
    let maxima = get_local_maxima(&spectrum);
    // the 9,9 plateau never qualifies; 2 is below the threshold 10/3
    assert_eq!(maxima.len(), 1);
    assert_eq!(maxima[0].index, 1);
}

#[test]
fn local_maxima_never_includes_boundary_bins() {
    let spectrum = bins_from_magnitudes(&[100, 1, 2]);
    let maxima = get_local_maxima(&spectrum);
    assert!(maxima.is_empty());
    for bin in get_local_maxima(&bins_from_magnitudes(&[7, 1, 9, 1, 7])) {
        assert!(bin.index != 0);
        assert!(bin.index != 4);
    }
}

#[test]
fn prominence_measures_the_shallower_valley() {
    let spectrum = bins_from_magnitudes(&[1, 5, 2, 7, 3]);
    // peak at 3: left run reaches the start with minimum 1, right run
    // has minimum 3; prominence = 7 - max(1, 3)
    assert_eq!(calculate_prominence(&spectrum, 3), 4);
    // peak at 1: the taller bin at 3 bounds the right run at minimum 2
    assert_eq!(calculate_prominence(&spectrum, 1), 3);
}

#[test]
fn prominent_peaks_keep_candidates_over_a_quarter_of_the_tallest() {
    let spectrum = bins_from_magnitudes(&[1, 5, 2, 7, 3]);
    let maxima = get_local_maxima(&spectrum);
    assert_eq!(maxima.len(), 2);
    let peaks = get_prominent_peaks(&spectrum, &maxima);
    assert_eq!(peaks.len(), 2);
    assert_eq!(peaks[0].index, 1);
    assert_eq!(peaks[1].index, 3);
}

#[test]
fn prominence_filter_is_idempotent_at_threshold_zero() {
    let spectrum = bins_from_magnitudes(&[1, 5, 2, 7, 3, 4, 1, 6, 2]);
    let maxima = get_local_maxima(&spectrum);
    let peaks = get_prominent_peaks(&spectrum, &maxima);
    let again = filter_by_prominence(&spectrum, &peaks, 0);
    assert_eq!(again, peaks);
}
