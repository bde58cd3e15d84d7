use fourier_chords::engine::format_detected_notes;
use fourier_chords::notes::closest_note_index;
use fourier_chords::notes::get_note_data;
use fourier_chords::notes::resolve_notes;
use fourier_chords::spectrum::SpectrumBin;

fn peak_at(frequency_millihz: u64) -> SpectrumBin {
    SpectrumBin {
        index: 1,
        frequency_millihz,
        magnitude: 100,
    }
}

#[test]
fn note_table_spans_c0_to_d_sharp_8() {
    let table = get_note_data();
    assert_eq!(table.len(), 100);
    assert_eq!(table[0].frequency_millihz, 16_350);
    assert_eq!(table[0].name, "C0");
    assert_eq!(table[99].frequency_millihz, 4_978_030);
    assert_eq!(table[99].name, "D#8");
    // frequencies ascend strictly
    for i in 1..table.len() {
        assert!(table[i - 1].frequency_millihz < table[i].frequency_millihz);
    }
}

#[test]
fn note_table_holds_standard_tuning() {
    let table = get_note_data();
    assert_eq!(table[57].frequency_millihz, 440_000);
    assert_eq!(table[57].name, "A4");
    assert_eq!(table[69].frequency_millihz, 880_000);
    assert_eq!(table[69].name, "A5");
    assert_eq!(table[13].frequency_millihz, 34_650);
    assert_eq!(table[13].name, "C#1");
    assert_eq!(table[49].frequency_millihz, 277_180);
    assert_eq!(table[49].name, "C#4");
}

#[test]
fn closest_note_minimizes_the_distance() {
    let table = get_note_data();
    assert_eq!(closest_note_index(&table, 440_000), 57);
    assert_eq!(closest_note_index(&table, 441_500), 57);
    assert_eq!(closest_note_index(&table, 1), 0);
    assert_eq!(closest_note_index(&table, 10_000_000), 99);
}

#[test]
fn closest_note_tie_goes_to_the_lower_frequency() {
    let table = get_note_data();
    // exactly between A0 at 27.5 Hz and A#0 at 29.14 Hz
    assert_eq!(closest_note_index(&table, 28_320), 9);
    assert_eq!(table[9].name, "A0");
}

#[test]
fn resolver_deduplicates_in_order_of_first_appearance() {
    let table = get_note_data();
    let peaks = vec![peak_at(440_000), peak_at(439_000), peak_at(880_000)];
    let notes = resolve_notes(&peaks, &table);
    assert_eq!(notes, vec!["A4".to_string(), "A5".to_string()]);
}

#[test]
fn resolver_of_no_peaks_detects_nothing() {
    let table = get_note_data();
    let notes = resolve_notes(&Vec::new(), &table);
    assert!(notes.is_empty());
}

#[test]
fn display_joins_notes_or_shows_none() {
    assert_eq!(format_detected_notes(&Vec::new()), "None");
    assert_eq!(format_detected_notes(&vec!["A4".to_string()]), "A4");
    assert_eq!(
        format_detected_notes(&vec!["A4".to_string(), "C#5".to_string(), "E5".to_string()]),
        "A4, C#5, E5"
    );
}
