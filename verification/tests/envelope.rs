//! ADSR envelope behaviour of a single voice.

use polysynth::voice::{Voice, EnvStage};
use polysynth::dsp::Waveform;

const F: u32 = 25736; // filter coefficients as the default parameters give them
const Q: u32 = 28836;

fn started_voice(velocity: u8) -> Voice {
    let mut v = Voice::new();
    // note 69, 440 Hz, 5 ms attack, 50 ms decay, 20% sustain
    v.start_with_adsr(69, 440_000, velocity, 1, 5, 50, 6554);
    v
}

/// During Attack the level is non-decreasing each sample and never
/// exceeds the target amplitude; the attack ends in Decay at the target.
#[test]
fn attack_is_monotone_and_capped() {
    let mut v = started_voice(100);
    let target = 100 * polysynth::LEVEL_ONE / 127;
    assert_eq!(v.target_amp, target);
    let mut prev = v.env;
    let mut reached = false;
    for _ in 0..(5 * 48 + 2) {
        v.tick(&Waveform::Sine, F, Q);
        assert!(v.env >= prev);
        assert!(v.env <= target);
        prev = v.env;
        if matches!(v.stage, EnvStage::Decay { .. }) {
            reached = true;
            break;
        }
    }
    assert!(reached, "attack did not finish within its configured time");
    assert_eq!(v.env, target);
}

/// During Release the level is non-increasing and is exactly zero within
/// the configured release duration.
#[test]
fn release_is_monotone_and_reaches_zero() {
    let mut v = started_voice(100);
    for _ in 0..480 {
        v.tick(&Waveform::Sine, F, Q); // well into decay/sustain
    }
    let release_ms = 500u32;
    v.note_off(release_ms);
    assert!(!v.gate);
    assert!(matches!(v.stage, EnvStage::Release { .. }));
    let mut prev = v.env;
    for _ in 0..(release_ms * 48) {
        v.tick(&Waveform::Sine, F, Q);
        assert!(v.env <= prev);
        prev = v.env;
    }
    assert_eq!(v.env, 0);
    assert!(matches!(v.stage, EnvStage::Idle));
    assert!(!v.active());
}

/// A freshly released voice with a healthy level uses the whole release
/// window: it is still audible one sample before the window ends.
#[test]
fn release_uses_its_window() {
    let mut v = started_voice(127);
    for _ in 0..480 {
        v.tick(&Waveform::Sine, F, Q);
    }
    let release_ms = 500u32;
    v.note_off(release_ms);
    let samples = release_ms * 48;
    for _ in 0..samples - 48 {
        v.tick(&Waveform::Sine, F, Q);
    }
    assert!(v.env > 0, "released voice fell silent far too early");
}
