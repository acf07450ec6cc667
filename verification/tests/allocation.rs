//! Voice allocation and stealing.

use polysynth::pool::VoicePool;
use polysynth::params::SynthParams;

/// More simultaneous note-ons than voices: the voice with the smallest
/// age is reassigned; distinct active notes never share a voice index.
#[test]
fn steals_oldest_when_full() {
    let params = SynthParams::new();
    let mut pool = VoicePool::new(3);
    pool.note_on(60, 100, &params);
    pool.note_on(64, 100, &params);
    pool.note_on(67, 100, &params);
    // All three voices sound distinct notes on distinct indices.
    let notes: Vec<u8> = pool.voices.iter().map(|v| v.note).collect();
    assert_eq!(notes, vec![60, 64, 67]);
    assert!(pool.voices.iter().all(|v| v.active()));
    // Ages are 1, 2, 3: voice 0 is the oldest.
    assert_eq!(pool.voices[0].age, 1);
    // A fourth note must steal voice 0, leaving the others alone.
    pool.note_on(72, 90, &params);
    let notes: Vec<u8> = pool.voices.iter().map(|v| v.note).collect();
    assert_eq!(notes, vec![72, 64, 67]);
    assert_eq!(pool.voices[0].age, 4);
}

/// An idle voice is preferred over stealing.
#[test]
fn reuses_idle_voice_first() {
    let params = SynthParams::new();
    let mut pool = VoicePool::new(2);
    pool.note_on(60, 100, &params);
    assert_eq!(pool.voices[0].note, 60);
    assert!(!pool.voices[1].active());
    pool.note_on(64, 100, &params);
    assert_eq!(pool.voices[1].note, 64);
    // Both busy now; a third note steals the older one (index 0).
    pool.note_on(67, 100, &params);
    assert_eq!(pool.voices[0].note, 67);
    assert_eq!(pool.voices[1].note, 64);
}

/// A stolen voice keeps its envelope level (no reset to zero), so the new
/// note continues from the current level instead of clicking.
#[test]
fn steal_keeps_envelope_level() {
    let params = SynthParams::new();
    let mut pool = VoicePool::new(1);
    pool.note_on(60, 127, &params);
    // Raise the envelope by rendering a few samples.
    for _ in 0..100 {
        pool.render_frame(&params);
    }
    let level_before = pool.voices[0].env;
    assert!(level_before > 0);
    pool.note_on(72, 10, &params);
    assert_eq!(pool.voices[0].env, level_before);
    assert_eq!(pool.voices[0].note, 72);
}

/// Velocity zero on a note-on acts as a note-off (MIDI convention).
#[test]
fn velocity_zero_is_note_off() {
    let params = SynthParams::new();
    let mut pool = VoicePool::new(2);
    pool.note_on(60, 100, &params);
    assert!(pool.voices[0].gate);
    pool.note_on(60, 0, &params);
    assert!(!pool.voices[0].gate);
    // No new voice was assigned and the age counter did not advance.
    assert_eq!(pool.age_counter, 1);
}

/// Releasing a note twice neither throws nor changes anything the first
/// release did not already change.
#[test]
fn note_off_is_idempotent() {
    let params = SynthParams::new();
    let mut pool = VoicePool::new(2);
    pool.note_on(60, 100, &params);
    for _ in 0..50 {
        pool.render_frame(&params);
    }
    pool.note_off(60, params.release_ms);
    let after_first = pool.voices.clone();
    pool.note_off(60, params.release_ms);
    assert_eq!(pool.voices, after_first);
}
