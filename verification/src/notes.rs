//! Note Table and Note Resolver: a fixed frequency-to-note-name table
//! spanning C0 through D#8, and nearest-frequency lookup over it.
//!
//! Frequencies are milli-Hz, so the standard tuning values carry three
//! decimal digits exactly.

use vstd::prelude::*;

verus! {

use vstd::string::StringExecFns;
use crate::math::dist;
use crate::math::dist_u64;

/// One entry of the Note Table.
#[derive(Debug, PartialEq)]
pub struct NoteEntry {
    /// Frequency of the note, in milli-Hz.
    pub frequency_millihz: u64,
    /// Note name, such as "A4" or "C#5".
    pub name: String,
}

/// Number of entries in the Note Table: twelve pitch classes over eight
/// full octaves, plus C8 through D#8.
pub const NOTE_COUNT: usize = 100;

/// Name of a pitch class, C through B.
pub open spec fn pitch_class_name(pc: int) -> Seq<char> {
    if pc == 0 {
        "C"@
    } else if pc == 1 {
        "C#"@
    } else if pc == 2 {
        "D"@
    } else if pc == 3 {
        "D#"@
    } else if pc == 4 {
        "E"@
    } else if pc == 5 {
        "F"@
    } else if pc == 6 {
        "F#"@
    } else if pc == 7 {
        "G"@
    } else if pc == 8 {
        "G#"@
    } else if pc == 9 {
        "A"@
    } else if pc == 10 {
        "A#"@
    } else {
        "B"@
    }
}

/// Digit naming an octave, 0 through 8.
pub open spec fn octave_name(o: int) -> Seq<char> {
    if o == 0 {
        "0"@
    } else if o == 1 {
        "1"@
    } else if o == 2 {
        "2"@
    } else if o == 3 {
        "3"@
    } else if o == 4 {
        "4"@
    } else if o == 5 {
        "5"@
    } else if o == 6 {
        "6"@
    } else if o == 7 {
        "7"@
    } else {
        "8"@
    }
}

/// Name of the `i`-th table entry: pitch class followed by octave digit.
pub open spec fn spec_note_name(i: int) -> Seq<char> {
    pitch_class_name(i % 12) + octave_name(i / 12)
}

/// Frequency of the `i`-th table entry in milli-Hz, ascending from C0 at
/// 16.35 Hz to D#8 at 4978.03 Hz in standard tuning.
pub open spec fn spec_note_freq(i: int) -> u64 {
    if i == 0 {
        16350
    } else if i == 1 {
        17320
    } else if i == 2 {
        18350
    } else if i == 3 {
        19450
    } else if i == 4 {
        20600
    } else if i == 5 {
        21830
    } else if i == 6 {
        23120
    } else if i == 7 {
        24500
    } else if i == 8 {
        25960
    } else if i == 9 {
        27500
    } else if i == 10 {
        29140
    } else if i == 11 {
        30870
    } else if i == 12 {
        32700
    } else if i == 13 {
        34650
    } else if i == 14 {
        36710
    } else if i == 15 {
        38890
    } else if i == 16 {
        41200
    } else if i == 17 {
        43650
    } else if i == 18 {
        46250
    } else if i == 19 {
        49000
    } else if i == 20 {
        51910
    } else if i == 21 {
        55000
    } else if i == 22 {
        58270
    } else if i == 23 {
        61740
    } else if i == 24 {
        65410
    } else if i == 25 {
        69300
    } else if i == 26 {
        73420
    } else if i == 27 {
        77780
    } else if i == 28 {
        82410
    } else if i == 29 {
        87310
    } else if i == 30 {
        92500
    } else if i == 31 {
        98000
    } else if i == 32 {
        103830
    } else if i == 33 {
        110000
    } else if i == 34 {
        116540
    } else if i == 35 {
        123470
    } else if i == 36 {
        130810
    } else if i == 37 {
        138590
    } else if i == 38 {
        146830
    } else if i == 39 {
        155560
    } else if i == 40 {
        164810
    } else if i == 41 {
        174610
    } else if i == 42 {
        185000
    } else if i == 43 {
        196000
    } else if i == 44 {
        207650
    } else if i == 45 {
        220000
    } else if i == 46 {
        233080
    } else if i == 47 {
        246940
    } else if i == 48 {
        261630
    } else if i == 49 {
        277180
    } else if i == 50 {
        293660
    } else if i == 51 {
        311130
    } else if i == 52 {
        329630
    } else if i == 53 {
        349230
    } else if i == 54 {
        369990
    } else if i == 55 {
        392000
    } else if i == 56 {
        415300
    } else if i == 57 {
        440000
    } else if i == 58 {
        466160
    } else if i == 59 {
        493880
    } else if i == 60 {
        523250
    } else if i == 61 {
        554370
    } else if i == 62 {
        587330
    } else if i == 63 {
        622250
    } else if i == 64 {
        659260
    } else if i == 65 {
        698460
    } else if i == 66 {
        739990
    } else if i == 67 {
        783990
    } else if i == 68 {
        830610
    } else if i == 69 {
        880000
    } else if i == 70 {
        932330
    } else if i == 71 {
        987770
    } else if i == 72 {
        1046500
    } else if i == 73 {
        1108730
    } else if i == 74 {
        1174660
    } else if i == 75 {
        1244510
    } else if i == 76 {
        1318510
    } else if i == 77 {
        1396910
    } else if i == 78 {
        1479980
    } else if i == 79 {
        1567980
    } else if i == 80 {
        1661220
    } else if i == 81 {
        1760000
    } else if i == 82 {
        1864660
    } else if i == 83 {
        1975530
    } else if i == 84 {
        2093000
    } else if i == 85 {
        2217460
    } else if i == 86 {
        2349320
    } else if i == 87 {
        2489020
    } else if i == 88 {
        2637020
    } else if i == 89 {
        2793830
    } else if i == 90 {
        2959960
    } else if i == 91 {
        3135960
    } else if i == 92 {
        3322440
    } else if i == 93 {
        3520000
    } else if i == 94 {
        3729310
    } else if i == 95 {
        3951070
    } else if i == 96 {
        4186010
    } else if i == 97 {
        4434920
    } else if i == 98 {
        4698640
    } else {
        4978030
    }
}

fn pitch_class_str(pc: usize) -> (r: &'static str)
    requires
        pc < 12,
    ensures
        r@ == pitch_class_name(pc as int),
{
    match pc {
        0 => "C",
        1 => "C#",
        2 => "D",
        3 => "D#",
        4 => "E",
        5 => "F",
        6 => "F#",
        7 => "G",
        8 => "G#",
        9 => "A",
        10 => "A#",
        _ => "B",
    }
}

fn octave_str(o: usize) -> (r: &'static str)
    requires
        o < 9,
    ensures
        r@ == octave_name(o as int),
{
    match o {
        0 => "0",
        1 => "1",
        2 => "2",
        3 => "3",
        4 => "4",
        5 => "5",
        6 => "6",
        7 => "7",
        _ => "8",
    }
}

fn note_frequency_value(i: usize) -> (r: u64)
    requires
        i < NOTE_COUNT,
    ensures
        r == spec_note_freq(i as int),
{
    match i {
        0 => 16350,
        1 => 17320,
        2 => 18350,
        3 => 19450,
        4 => 20600,
        5 => 21830,
        6 => 23120,
        7 => 24500,
        8 => 25960,
        9 => 27500,
        10 => 29140,
        11 => 30870,
        12 => 32700,
        13 => 34650,
        14 => 36710,
        15 => 38890,
        16 => 41200,
        17 => 43650,
        18 => 46250,
        19 => 49000,
        20 => 51910,
        21 => 55000,
        22 => 58270,
        23 => 61740,
        24 => 65410,
        25 => 69300,
        26 => 73420,
        27 => 77780,
        28 => 82410,
        29 => 87310,
        30 => 92500,
        31 => 98000,
        32 => 103830,
        33 => 110000,
        34 => 116540,
        35 => 123470,
        36 => 130810,
        37 => 138590,
        38 => 146830,
        39 => 155560,
        40 => 164810,
        41 => 174610,
        42 => 185000,
        43 => 196000,
        44 => 207650,
        45 => 220000,
        46 => 233080,
        47 => 246940,
        48 => 261630,
        49 => 277180,
        50 => 293660,
        51 => 311130,
        52 => 329630,
        53 => 349230,
        54 => 369990,
        55 => 392000,
        56 => 415300,
        57 => 440000,
        58 => 466160,
        59 => 493880,
        60 => 523250,
        61 => 554370,
        62 => 587330,
        63 => 622250,
        64 => 659260,
        65 => 698460,
        66 => 739990,
        67 => 783990,
        68 => 830610,
        69 => 880000,
        70 => 932330,
        71 => 987770,
        72 => 1046500,
        73 => 1108730,
        74 => 1174660,
        75 => 1244510,
        76 => 1318510,
        77 => 1396910,
        78 => 1479980,
        79 => 1567980,
        80 => 1661220,
        81 => 1760000,
        82 => 1864660,
        83 => 1975530,
        84 => 2093000,
        85 => 2217460,
        86 => 2349320,
        87 => 2489020,
        88 => 2637020,
        89 => 2793830,
        90 => 2959960,
        91 => 3135960,
        92 => 3322440,
        93 => 3520000,
        94 => 3729310,
        95 => 3951070,
        96 => 4186010,
        97 => 4434920,
        98 => 4698640,
        _ => 4978030,
    }
}

/// Builds the Note Table: one hundred entries in ascending frequency
/// order, each pinned to its standard-tuning frequency and name.
pub fn get_note_data() -> (r: Vec<NoteEntry>)
    ensures
        r@.len() == NOTE_COUNT,
        forall|i: int|
            0 <= i < NOTE_COUNT ==> (#[trigger] r@[i]).frequency_millihz == spec_note_freq(i)
                && r@[i].name@ == spec_note_name(i),
{
    let mut table: Vec<NoteEntry> = Vec::new();
    let mut i: usize = 0;
    while i < NOTE_COUNT
        invariant
            0 <= i <= NOTE_COUNT,
            table@.len() == i,
            forall|j: int|
                0 <= j < i ==> (#[trigger] table@[j]).frequency_millihz == spec_note_freq(j)
                    && table@[j].name@ == spec_note_name(j),
        decreases NOTE_COUNT - i,
    {
        let name = pitch_class_str(i % 12).to_owned().concat(octave_str(i / 12));
        let entry = NoteEntry { frequency_millihz: note_frequency_value(i), name };
        table.push(entry);
        i = i + 1;
    }
    table
}

/// `a` is a strictly better match than `b` for frequency `f`: closer, or
/// as close with a lower frequency.
pub open spec fn better_match(a: NoteEntry, b: NoteEntry, f: int) -> bool {
    ||| dist(a.frequency_millihz as int, f) < dist(b.frequency_millihz as int, f)
    ||| (dist(a.frequency_millihz as int, f) == dist(b.frequency_millihz as int, f)
        && a.frequency_millihz < b.frequency_millihz)
}

/// Index of the best match for `f` among the first `n` table entries:
/// the first entry minimizing the distance to `f`, ties resolved toward
/// the lowest frequency.
pub open spec fn closest_idx(table: Seq<NoteEntry>, f: int, n: int) -> int
    decreases n,
{
    if n <= 1 {
        0
    } else {
        let best = closest_idx(table, f, n - 1);
        if better_match(table[n - 1], table[best], f) {
            n - 1
        } else {
            best
        }
    }
}

/// Scans the whole table for the entry whose frequency is nearest to
/// `f`; of equally near entries the one with the lowest frequency wins.
pub fn closest_note_index(table: &Vec<NoteEntry>, f: u64) -> (r: usize)
    requires
        table@.len() > 0,
    ensures
        r < table@.len(),
        r == closest_idx(table@, f as int, table@.len() as int),
        forall|j: int|
            0 <= j < table@.len() ==> dist(table@[r as int].frequency_millihz as int, f as int)
                <= dist((#[trigger] table@[j]).frequency_millihz as int, f as int),
        forall|j: int|
            0 <= j < table@.len() && dist((#[trigger] table@[j]).frequency_millihz as int, f as int)
                == dist(table@[r as int].frequency_millihz as int, f as int)
                ==> table@[r as int].frequency_millihz <= table@[j].frequency_millihz,
{
    let n = table.len();
    let mut best: usize = 0;
    let mut j: usize = 1;
    while j < n
        invariant
            1 <= j <= n,
            n == table@.len(),
            best < j,
            best == closest_idx(table@, f as int, j as int),
            forall|k: int|
                0 <= k < j ==> dist(table@[best as int].frequency_millihz as int, f as int) <= dist(
                    (#[trigger] table@[k]).frequency_millihz as int,
                    f as int,
                ),
            forall|k: int|
                0 <= k < j && dist((#[trigger] table@[k]).frequency_millihz as int, f as int)
                    == dist(table@[best as int].frequency_millihz as int, f as int)
                    ==> table@[best as int].frequency_millihz <= table@[k].frequency_millihz,
        decreases n - j,
    {
        let d = dist_u64(table[j].frequency_millihz, f);
        let bd = dist_u64(table[best].frequency_millihz, f);
        if d < bd || (d == bd && table[j].frequency_millihz < table[best].frequency_millihz) {
            best = j;
        }
        j = j + 1;
    }
    best
}

/// Name resolved for frequency `f` against the table.
pub open spec fn spec_note_of(table: Seq<NoteEntry>, f: int) -> Seq<char> {
    table[closest_idx(table, f, table.len() as int)].name@
}

/// Names resolved for the first `n` peaks, in order of first appearance,
/// without duplicates.
pub open spec fn spec_resolved_upto(
    peaks: Seq<crate::spectrum::SpectrumBin>,
    table: Seq<NoteEntry>,
    n: int,
) -> Seq<Seq<char>>
    decreases n,
{
    if n <= 0 {
        Seq::empty()
    } else {
        let prev = spec_resolved_upto(peaks, table, n - 1);
        let name = spec_note_of(table, peaks[n - 1].frequency_millihz as int);
        if prev.contains(name) {
            prev
        } else {
            prev.push(name)
        }
    }
}

/// The Detected Notes of a pass: each prominent peak resolved to its
/// nearest note, kept in order of first appearance and de-duplicated.
pub open spec fn spec_resolved_notes(
    peaks: Seq<crate::spectrum::SpectrumBin>,
    table: Seq<NoteEntry>,
) -> Seq<Seq<char>> {
    spec_resolved_upto(peaks, table, peaks.len() as int)
}

/// Whether `name` already occurs among the collected notes.
fn contains_note(notes: &Vec<String>, name: &String) -> (r: bool)
    ensures
        r == exists|j: int| 0 <= j < notes@.len() && (#[trigger] notes@[j])@ == name@,
{
    let n = notes.len();
    let mut i: usize = 0;
    while i < n
        invariant
            0 <= i <= n,
            n == notes@.len(),
            forall|j: int| 0 <= j < i ==> (#[trigger] notes@[j])@ != name@,
        decreases n - i,
    {
        if notes[i].eq(name) {
            return true;
        }
        i = i + 1;
    }
    false
}

/// Note Resolver: maps each prominent peak to the name of the nearest
/// table entry, appending it only if this pass has not produced it yet.
pub fn resolve_notes(peaks: &Vec<crate::spectrum::SpectrumBin>, table: &Vec<NoteEntry>) -> (r:
    Vec<String>)
    requires
        table@.len() > 0,
    ensures
        r@.len() == spec_resolved_notes(peaks@, table@).len(),
        forall|k: int|
            0 <= k < r@.len() ==> (#[trigger] r@[k])@ == spec_resolved_notes(peaks@, table@)[k],
{
    let m = peaks.len();
    let mut out: Vec<String> = Vec::new();
    let mut i: usize = 0;
    while i < m
        invariant
            0 <= i <= m,
            m == peaks@.len(),
            table@.len() > 0,
            out@.len() == spec_resolved_upto(peaks@, table@, i as int).len(),
            forall|k: int|
                0 <= k < out@.len() ==> (#[trigger] out@[k])@ == spec_resolved_upto(
                    peaks@,
                    table@,
                    i as int,
                )[k],
        decreases m - i,
    {
        let ghost prev = spec_resolved_upto(peaks@, table@, i as int);
        let ghost name_spec = spec_note_of(table@, peaks@[i as int].frequency_millihz as int);
        let idx = closest_note_index(table, peaks[i].frequency_millihz);
        let already = contains_note(&out, &table[idx].name);
        proof {
            assert(table@[idx as int].name@ == name_spec);
            if already {
                let j = choose|j: int|
                    0 <= j < out@.len() && (#[trigger] out@[j])@ == name_spec;
                assert(prev[j] == name_spec);
                assert(prev.contains(name_spec));
            } else {
                assert forall|j: int| 0 <= j < prev.len() implies #[trigger] prev[j] != name_spec
                by {
                    assert(out@[j]@ == prev[j]);
                }
                assert(!prev.contains(name_spec));
            }
        }
        if !already {
            out.push(table[idx].name.clone());
        }
        i = i + 1;
    }
    out
}

} // verus!
