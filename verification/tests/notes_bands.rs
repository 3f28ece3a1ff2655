//! Tests of note naming and band classification.

use audioscope::bands::classify_band;
use audioscope::bands::Band;
use audioscope::notes::frequency_to_note;
use audioscope::notes::int_to_string;
use audioscope::notes::note_name;

#[test]
fn note_mapping_reference_points() {
    // 440 Hz is A4; 880 Hz one octave up; 220 Hz one octave down.
    assert_eq!(frequency_to_note(440_000, 0), "A4");
    assert_eq!(frequency_to_note(880_000, 12), "A5");
    assert_eq!(frequency_to_note(220_000, -12), "A3");
}

#[test]
fn zero_frequency_is_silence() {
    assert_eq!(frequency_to_note(0, 0), "Silence");
    assert_eq!(frequency_to_note(0, 7), "Silence");
}

#[test]
fn note_names_around_a4() {
    assert_eq!(note_name(1), "A#4");
    assert_eq!(note_name(2), "B4");
    assert_eq!(note_name(3), "C4");
    assert_eq!(note_name(-1), "G#3");
    assert_eq!(note_name(-13), "G#2");
    assert_eq!(note_name(14), "B5");
}

#[test]
fn int_to_string_exact() {
    assert_eq!(int_to_string(0), "0");
    assert_eq!(int_to_string(7), "7");
    assert_eq!(int_to_string(-7), "-7");
    assert_eq!(int_to_string(12_345), "12345");
    assert_eq!(int_to_string(-120), "-120");
}

#[test]
fn band_boundaries_are_strict() {
    // A frequency equal to a boundary belongs to the band above it.
    assert_eq!(classify_band(80_000), Band::LowMid);
    assert_eq!(classify_band(79_999), Band::Bass);
    assert_eq!(classify_band(250_000), Band::Mid);
    assert_eq!(classify_band(249_999), Band::LowMid);
    assert_eq!(classify_band(2_000_000), Band::HighMid);
    assert_eq!(classify_band(1_999_999), Band::Mid);
    assert_eq!(classify_band(4_000_000), Band::Treble);
    assert_eq!(classify_band(3_999_999), Band::HighMid);
}

#[test]
fn band_labels() {
    assert_eq!(Band::Bass.label(), "Bass");
    assert_eq!(Band::LowMid.label(), "Low Mid");
    assert_eq!(Band::Mid.label(), "Mid");
    assert_eq!(Band::HighMid.label(), "High Mid");
    assert_eq!(Band::Treble.label(), "Treble");
}
