//! Note-number to frequency mapping.

use polysynth::midi::midi_note_to_freq;

/// Every MIDI note maps to 440 * 2^((n-69)/12) Hz within floating-point
/// tolerance.
#[test]
fn all_notes_match_equal_temperament() {
    for n in 0u8..=127u8 {
        let got = midi_note_to_freq(n) as f64; // millihertz
        let exact = 440.0_f64 * 2.0_f64.powf((n as f64 - 69.0) / 12.0) * 1000.0;
        let rel = (got - exact).abs() / exact;
        assert!(rel < 1e-4, "note {} -> {} mHz, expected {} mHz", n, got, exact);
    }
}

#[test]
fn reference_notes_exact() {
    assert_eq!(midi_note_to_freq(69), 440_000); // A4 = 440 Hz
    assert_eq!(midi_note_to_freq(57), 220_000); // A3 = 220 Hz
    assert_eq!(midi_note_to_freq(81), 880_000); // A5 = 880 Hz
    assert_eq!(midi_note_to_freq(60), 261_626); // middle C, 261.626 Hz
}
