//! End-to-end: events through the queue, rendered to frames.

use polysynth::engine::Synth;
use polysynth::midi::MidiEvent;
use std::ops::ControlFlow;

fn ev(status: u8, data1: u8, data2: u8) -> MidiEvent {
    MidiEvent { status, data1, data2 }
}

fn unpack(w: u32) -> (i16, i16) {
    ((w >> 16) as u16 as i16, w as u16 as i16)
}

/// With a pool of five voices, note-on(60, 100) and one rendered buffer
/// yield non-zero, non-clipping mono frames, and the envelope stays
/// within [0, target amplitude]. A note-off then drives the output to
/// zero within the release duration.
#[test]
fn note_renders_then_decays_to_silence() {
    let mut s = Synth::new(5);
    s.push_event(ev(0x90, 60, 100));
    let mut buf = vec![0u32; 512];
    let flow = s.process(&mut buf);
    assert!(matches!(flow, ControlFlow::Continue(())));

    let target = 100 * 32768 / 127;
    let mut any_nonzero = false;
    for &w in buf.iter() {
        let (l, r) = unpack(w);
        assert_eq!(l, r, "mono signal must be duplicated into both channels");
        assert!(l.abs() <= 12000, "headroom exceeded: {}", l);
        if l != 0 {
            any_nonzero = true;
        }
    }
    assert!(any_nonzero, "a sounding voice must produce output");
    for v in s.pool.voices.iter() {
        assert!(v.env <= target);
    }

    // Release the note and render past the 500 ms default release window.
    s.push_event(ev(0x80, 60, 0));
    let release_samples = 500 * polysynth::SAMPLE_RATE as usize / 1000;
    let blocks = release_samples / buf.len() + 1;
    for _ in 0..blocks {
        s.process(&mut buf);
    }
    // The window has elapsed: the voice is silent and the next block too.
    assert!(s.pool.voices.iter().all(|v| !v.active()));
    s.process(&mut buf);
    assert!(buf.iter().all(|&w| w == 0), "output must be silent after the release");
}

/// Events queued in one burst apply in FIFO order before any audio of the
/// call: a control change queued before a note-on shapes that note.
#[test]
fn events_apply_before_rendering() {
    let mut s = Synth::new(5);
    s.push_event(ev(0xB0, 21, 40)); // waveform: square
    s.push_event(ev(0xB0, 24, 127)); // sustain level: 1.0
    s.push_event(ev(0x90, 69, 127));
    let mut buf = vec![0u32; 16];
    s.process(&mut buf);
    assert!(matches!(s.params.waveform, polysynth::dsp::Waveform::Square));
    assert_eq!(s.params.sustain_q15, 32768);
    assert_eq!(s.pool.voices[0].note, 69);
    assert_eq!(s.pool.voices[0].freq_millihz, 440_000);
    assert_eq!(s.queue.len(), 0);
}

/// Malformed events (data bytes with the high bit set) and unsupported
/// status bytes are ignored, not errors.
#[test]
fn malformed_events_ignored() {
    let mut s = Synth::new(2);
    s.push_event(ev(0x90, 200, 100)); // note out of range
    s.push_event(ev(0x90, 60, 250)); // velocity out of range
    s.push_event(ev(0xB0, 22, 200)); // control value out of range
    let mut buf = vec![0u32; 8];
    s.process(&mut buf);
    assert!(s.pool.voices.iter().all(|v| !v.active()));
    assert_eq!(s.params.attack_ms, 5);
    assert!(buf.iter().all(|&w| w == 0));
}

/// The render loop never asks the caller to stop.
#[test]
fn process_always_continues() {
    let mut s = Synth::new(1);
    let mut buf = vec![0u32; 4];
    for _ in 0..10 {
        assert!(matches!(s.process(&mut buf), ControlFlow::Continue(())));
    }
}
