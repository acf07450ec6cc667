//! MIDI events and the note-number to frequency mapping.

use vstd::prelude::*;

verus! {

/// One decoded MIDI message: a status byte and two data bytes.
///
/// Events are copied by value into the event queue by the input path and
/// consumed exactly once by the engine.
#[derive(Copy, Clone, PartialEq, Eq, Structural, Debug)]
pub struct MidiEvent {
    pub status: u8,
    pub data1: u8,
    pub data2: u8,
}

/// Status nibbles the synthesizer reacts to.
pub const STATUS_NOTE_OFF: u8 = 0x80;
pub const STATUS_NOTE_ON: u8 = 0x90;
pub const STATUS_CONTROL_CHANGE: u8 = 0xB0;

/// Whether a status byte is Note-On, Note-Off or Control-Change on any
/// channel. The producer side discards everything else before enqueueing,
/// so that clock and active-sensing traffic cannot crowd the queue.
pub open spec fn spec_relevant_status(status: u8) -> bool {
    ||| (STATUS_NOTE_OFF <= status && status < STATUS_NOTE_ON)
    ||| (STATUS_NOTE_ON <= status && status < 0xA0)
    ||| (STATUS_CONTROL_CHANGE <= status && status < 0xC0)
}

/// Filter applied by the producer side of the event queue (see
/// `spec_relevant_status`).
pub fn relevant_status(status: u8) -> (r: bool)
    ensures
        r == spec_relevant_status(status),
{
    (STATUS_NOTE_OFF <= status && status < STATUS_NOTE_ON)
        || (STATUS_NOTE_ON <= status && status < 0xA0)
        || (STATUS_CONTROL_CHANGE <= status && status < 0xC0)
}

/// Frequency in millihertz of the twelve notes of the octave above the
/// MIDI range, i.e. of notes 120 to 131: 440000 * 2^((s + 51) / 12),
/// rounded to the nearest millihertz. Lower octaves halve these exactly.
pub open spec fn spec_top_octave_millihz(s: u8) -> u32 {
    if s == 0 {
        8372018
    } else if s == 1 {
        8869844
    } else if s == 2 {
        9397273
    } else if s == 3 {
        9956063
    } else if s == 4 {
        10548082
    } else if s == 5 {
        11175303
    } else if s == 6 {
        11839822
    } else if s == 7 {
        12543854
    } else if s == 8 {
        13289750
    } else if s == 9 {
        14080000
    } else if s == 10 {
        14917240
    } else {
        15804266
    }
}

/// The power of two that scales a note of the given octave down from the
/// table octave: notes 0..12 are 10 octaves below the table.
pub open spec fn spec_octave_divisor(octave: u8) -> u32 {
    if octave == 0 {
        1024
    } else if octave == 1 {
        512
    } else if octave == 2 {
        256
    } else if octave == 3 {
        128
    } else if octave == 4 {
        64
    } else if octave == 5 {
        32
    } else if octave == 6 {
        16
    } else if octave == 7 {
        8
    } else if octave == 8 {
        4
    } else if octave == 9 {
        2
    } else {
        1
    }
}

/// Frequency of a MIDI note in millihertz: 440 Hz at note 69 (A4), one
/// octave per twelve notes, rounded to the nearest millihertz.
pub open spec fn spec_note_freq_millihz(note: u8) -> u32 {
    let t = spec_top_octave_millihz((note % 12) as u8);
    let d = spec_octave_divisor((note / 12) as u8);
    ((t + d / 2) as int / d as int) as u32
}

/// Standard MIDI note to frequency: A4 = note 69 = 440 Hz, equal
/// temperament, in millihertz.
pub fn midi_note_to_freq(note: u8) -> (f: u32)
    requires
        note <= 127,
    ensures
        f == spec_note_freq_millihz(note),
{
    let t = top_octave_millihz(note % 12);
    let d = octave_divisor(note / 12);
    (t + d / 2) / d
}

/// Table half of `midi_note_to_freq` (see `spec_top_octave_millihz`).
fn top_octave_millihz(s: u8) -> (t: u32)
    requires
        s < 12,
    ensures
        t == spec_top_octave_millihz(s),
{
    if s == 0 {
        8372018
    } else if s == 1 {
        8869844
    } else if s == 2 {
        9397273
    } else if s == 3 {
        9956063
    } else if s == 4 {
        10548082
    } else if s == 5 {
        11175303
    } else if s == 6 {
        11839822
    } else if s == 7 {
        12543854
    } else if s == 8 {
        13289750
    } else if s == 9 {
        14080000
    } else if s == 10 {
        14917240
    } else {
        15804266
    }
}

/// Octave scaling half of `midi_note_to_freq` (see `spec_octave_divisor`).
fn octave_divisor(octave: u8) -> (d: u32)
    requires
        octave <= 10,
    ensures
        d == spec_octave_divisor(octave),
{
    if octave == 0 {
        1024
    } else if octave == 1 {
        512
    } else if octave == 2 {
        256
    } else if octave == 3 {
        128
    } else if octave == 4 {
        64
    } else if octave == 5 {
        32
    } else if octave == 6 {
        16
    } else if octave == 7 {
        8
    } else if octave == 8 {
        4
    } else if octave == 9 {
        2
    } else {
        1
    }
}

/// Every note frequency fits comfortably below the sample rate in
/// millihertz, which keeps the phase-increment derivation in range.
pub proof fn lemma_note_freq_bound(note: u8)
    requires
        note <= 127,
    ensures
        spec_note_freq_millihz(note) <= 12_543_854,
{
}

} // verus!
