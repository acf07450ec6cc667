//! The global synthesis parameters and their control-change mapping.

use vstd::prelude::*;
use crate::dsp::Waveform;

verus! {

/// Control numbers understood by the engine.
pub const CC_WAVEFORM: u8 = 21;
pub const CC_ATTACK: u8 = 22;
pub const CC_DECAY: u8 = 23;
pub const CC_SUSTAIN: u8 = 24;
pub const CC_RELEASE: u8 = 25;
pub const CC_CUTOFF: u8 = 26;
pub const CC_RESONANCE: u8 = 27;

/// Current waveform selection and ADSR/filter configuration. One instance
/// is shared by every voice of the engine; only a control-change event
/// mutates it.
#[derive(Copy, Clone, PartialEq, Eq, Structural, Debug)]
pub struct SynthParams {
    /// Waveform played by every voice.
    pub waveform: Waveform,
    /// Attack time in milliseconds, 1 to 2000.
    pub attack_ms: u32,
    /// Decay time in milliseconds, 1 to 2000.
    pub decay_ms: u32,
    /// Sustain level in Q15, 0 to 32768.
    pub sustain_q15: u32,
    /// Release time in milliseconds, 1 to 3000.
    pub release_ms: u32,
    /// Filter cutoff as a Q15 fraction of the Nyquist frequency.
    pub cutoff_q15: u32,
    /// Filter resonance in Q15, 0 to 131072 (0.0 to 4.0).
    pub resonance_q15: u32,
}

impl SynthParams {
    /// Every parameter sits inside its physical range.
    pub open spec fn wf(self) -> bool {
        &&& 1 <= self.attack_ms <= 2000
        &&& 1 <= self.decay_ms <= 2000
        &&& self.sustain_q15 <= 32768
        &&& 1 <= self.release_ms <= 3000
        &&& self.cutoff_q15 <= 32768
        &&& self.resonance_q15 <= 131072
    }

    /// The configuration the engine starts with: a sine at a quick attack,
    /// short decay, 20% sustain, half-second release, the filter half open
    /// with mild resonance.
    pub fn new() -> (p: SynthParams)
        ensures
            p == spec_default_params(),
            p.wf(),
    {
        SynthParams {
            waveform: Waveform::Sine,
            attack_ms: 5,
            decay_ms: 50,
            sustain_q15: 6554,
            release_ms: 500,
            cutoff_q15: 16384,
            resonance_q15: 16384,
        }
    }
}

/// The parameter values a fresh engine starts with.
pub open spec fn spec_default_params() -> SynthParams {
    SynthParams {
        waveform: Waveform::Sine,
        attack_ms: 5u32,
        decay_ms: 50u32,
        sustain_q15: 6554u32,
        release_ms: 500u32,
        cutoff_q15: 16384u32,
        resonance_q15: 16384u32,
    }
}

/// The effect of one control change: a fixed linear mapping from the
/// 7-bit control value onto the parameter's physical range; the waveform
/// control selects by quartile; unrecognized control numbers change
/// nothing.
pub open spec fn spec_control_change(p: SynthParams, cc: u8, val: u8) -> SynthParams {
    if cc == CC_WAVEFORM {
        let w = if val < 32 {
            Waveform::Sine
        } else if val < 64 {
            Waveform::Square
        } else if val < 96 {
            Waveform::Sawtooth
        } else {
            Waveform::Triangle
        };
        SynthParams { waveform: w, ..p }
    } else if cc == CC_ATTACK {
        SynthParams { attack_ms: (1 + (val as int) * 1999 / 127) as u32, ..p }
    } else if cc == CC_DECAY {
        SynthParams { decay_ms: (1 + (val as int) * 1999 / 127) as u32, ..p }
    } else if cc == CC_SUSTAIN {
        SynthParams { sustain_q15: ((val as int) * 32768 / 127) as u32, ..p }
    } else if cc == CC_RELEASE {
        SynthParams { release_ms: (1 + (val as int) * 2999 / 127) as u32, ..p }
    } else if cc == CC_CUTOFF {
        SynthParams { cutoff_q15: ((val as int) * 32768 / 127) as u32, ..p }
    } else if cc == CC_RESONANCE {
        SynthParams { resonance_q15: ((val as int) * 131072 / 127) as u32, ..p }
    } else {
        p
    }
}

impl SynthParams {
    /// Apply one control-change event (see `spec_control_change`).
    pub fn control_change(&mut self, cc: u8, val: u8)
        requires
            old(self).wf(),
            val <= 127,
        ensures
            *final(self) == spec_control_change(*old(self), cc, val),
            final(self).wf(),
    {
        if cc == CC_WAVEFORM {
            self.waveform = if val < 32 {
                Waveform::Sine
            } else if val < 64 {
                Waveform::Square
            } else if val < 96 {
                Waveform::Sawtooth
            } else {
                Waveform::Triangle
            };
        } else if cc == CC_ATTACK {
            self.attack_ms = 1 + (val as u32) * 1999 / 127;
        } else if cc == CC_DECAY {
            self.decay_ms = 1 + (val as u32) * 1999 / 127;
        } else if cc == CC_SUSTAIN {
            self.sustain_q15 = (val as u32) * 32768 / 127;
        } else if cc == CC_RELEASE {
            self.release_ms = 1 + (val as u32) * 2999 / 127;
        } else if cc == CC_CUTOFF {
            self.cutoff_q15 = (val as u32) * 32768 / 127;
        } else if cc == CC_RESONANCE {
            self.resonance_q15 = (val as u32) * 131072 / 127;
        }
    }
}

} // verus!
