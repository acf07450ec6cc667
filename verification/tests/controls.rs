//! Control-change mapping and the fixed-point signal primitives.

use polysynth::engine::Synth;
use polysynth::midi::MidiEvent;
use polysynth::dsp::{pack_lr_16, osc_sample, filter_f, filter_q, Waveform};

fn cc(synth: &mut Synth, num: u8, val: u8) {
    synth.push_event(MidiEvent { status: 0xB0, data1: num, data2: val });
    let mut buf = vec![0u32; 1];
    synth.process(&mut buf);
}

/// Each control number maps linearly onto its documented physical range.
#[test]
fn control_change_ranges() {
    let mut s = Synth::new(1);
    cc(&mut s, 22, 0);
    assert_eq!(s.params.attack_ms, 1); // 0.001 s
    cc(&mut s, 22, 127);
    assert_eq!(s.params.attack_ms, 2000); // 2.0 s
    cc(&mut s, 23, 127);
    assert_eq!(s.params.decay_ms, 2000);
    cc(&mut s, 24, 0);
    assert_eq!(s.params.sustain_q15, 0);
    cc(&mut s, 24, 127);
    assert_eq!(s.params.sustain_q15, 32768); // 1.0
    cc(&mut s, 25, 127);
    assert_eq!(s.params.release_ms, 3000); // 3.0 s
    cc(&mut s, 26, 127);
    assert_eq!(s.params.cutoff_q15, 32768); // full Nyquist fraction
    cc(&mut s, 27, 127);
    assert_eq!(s.params.resonance_q15, 131072); // 4.0
    cc(&mut s, 27, 0);
    assert_eq!(s.params.resonance_q15, 0);
}

/// The waveform control selects by quartile of the 7-bit range.
#[test]
fn waveform_quartiles() {
    let mut s = Synth::new(1);
    for (val, expect) in [
        (0u8, Waveform::Sine),
        (31, Waveform::Sine),
        (32, Waveform::Square),
        (63, Waveform::Square),
        (64, Waveform::Sawtooth),
        (95, Waveform::Sawtooth),
        (96, Waveform::Triangle),
        (127, Waveform::Triangle),
    ] {
        cc(&mut s, 21, val);
        assert_eq!(s.params.waveform, expect);
    }
}

/// Unrecognized control numbers are ignored.
#[test]
fn unknown_control_ignored() {
    let mut s = Synth::new(1);
    let before = s.params;
    cc(&mut s, 20, 99);
    cc(&mut s, 28, 99);
    cc(&mut s, 64, 99); // sustain pedal: not handled
    assert_eq!(s.params, before);
}

/// The filter coefficients follow their documented mappings: cutoff to
/// pi/2 at full scale (capped at 1.5), damping 1 - 0.24 * resonance
/// (floored at 0.05), all in Q15.
#[test]
fn filter_coefficients() {
    assert_eq!(filter_f(0), 0);
    assert_eq!(filter_f(16384), 25736); // 0.5 * pi/2
    assert_eq!(filter_f(32768), 49152); // capped at 1.5
    assert_eq!(filter_q(0), 32768); // no resonance: damping 1.0
    assert_eq!(filter_q(16384), 28836); // 0.5 resonance
    assert_eq!(filter_q(131072), 1638); // 4.0 resonance: floored at 0.05
}

/// Frames pack the left sample into the high half-word and the right
/// sample into the low half-word, two's complement.
#[test]
fn pack_layout() {
    assert_eq!(pack_lr_16(0, 0), 0);
    assert_eq!(pack_lr_16(1, 2), 0x0001_0002);
    assert_eq!(pack_lr_16(-1, -1), 0xFFFF_FFFF);
    assert_eq!(pack_lr_16(-32768, 32767), 0x8000_7FFF);
    assert_eq!(pack_lr_16(12000, -12000), 0x2EE0_D120);
}

/// The waveform functions hit their characteristic points.
#[test]
fn oscillator_shapes() {
    let quarter = 0x4000_0000u32;
    let half = 0x8000_0000u32;
    // Sine: zero at phase 0, peak at a quarter, trough at three quarters.
    assert_eq!(osc_sample(&Waveform::Sine, 0), 0);
    assert_eq!(osc_sample(&Waveform::Sine, quarter), 32768);
    assert_eq!(osc_sample(&Waveform::Sine, half), 0);
    assert_eq!(osc_sample(&Waveform::Sine, half + quarter), -32768);
    // Square: high then low.
    assert_eq!(osc_sample(&Waveform::Square, 0), 32768);
    assert_eq!(osc_sample(&Waveform::Square, half - 1), 32768);
    assert_eq!(osc_sample(&Waveform::Square, half), -32768);
    // Sawtooth: ramps from -1 to just below +1.
    assert_eq!(osc_sample(&Waveform::Sawtooth, 0), -32768);
    assert_eq!(osc_sample(&Waveform::Sawtooth, half), 0);
    assert_eq!(osc_sample(&Waveform::Sawtooth, 0xFFFF_0000), 32767);
    // Triangle: rises over the first half, falls over the second.
    assert_eq!(osc_sample(&Waveform::Triangle, 0), -32768);
    assert_eq!(osc_sample(&Waveform::Triangle, quarter), 0);
    assert_eq!(osc_sample(&Waveform::Triangle, half), 32768);
    assert_eq!(osc_sample(&Waveform::Triangle, half + quarter), 0);
}
