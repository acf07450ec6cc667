//! One voice: oscillator phase, ADSR envelope and filter state.

use vstd::prelude::*;
use vstd::arithmetic::div_mod::{lemma_div_is_ordered, lemma_div_by_multiple};
use vstd::arithmetic::mul::{lemma_mul_inequality, lemma_mul_nonnegative};
use crate::dsp::{
    Waveform, FILTER_STATE_BOUND, spec_div_trunc, spec_osc_sample, spec_filter_next,
    lemma_mul_bound, lemma_div_trunc_bound, osc_sample, filter_step, div_trunc_i64,
    FILTER_F_MAX,
};

verus! {

/// The envelope stage, tagged with the per-sample ramp increments (Q15)
/// that were derived when the stage was entered.
#[derive(Copy, Clone, PartialEq, Eq, Structural, Debug)]
pub enum EnvStage {
    /// Not sounding.
    Idle,
    /// Ramping up toward the target amplitude. Carries the decay
    /// increment so that the transition into `Decay` can hand it on.
    Attack { attack_inc: u32, decay_inc: u32 },
    /// Ramping down toward the sustain level.
    Decay { decay_inc: u32 },
    /// Holding the sustain level while the key is held.
    Sustain,
    /// Ramping down to silence after the key was released: a linear ramp
    /// from `release_start` (the level when the key was released) to zero
    /// over `release_total` samples, with `release_left` samples to go.
    /// The level at each sample is `release_start * release_left /
    /// release_total`, so the release takes the configured duration
    /// wherever the envelope was when the key was released.
    Release { release_start: u32, release_total: u32, release_left: u32 },
}

/// One polyphony slot. Amplitudes are Q15 (32768 is full scale), the
/// oscillator phase is a 32-bit fraction of one cycle, frequencies are in
/// millihertz.
#[derive(Copy, Clone, PartialEq, Eq, Structural, Debug)]
pub struct Voice {
    /// MIDI note currently assigned to this slot.
    pub note: u8,
    /// Frequency of that note in millihertz.
    pub freq_millihz: u32,
    /// Per-sample phase step derived from the frequency.
    pub phase_inc: u32,
    /// Peak amplitude from the note's velocity, Q15.
    pub target_amp: u32,
    /// Sustain amplitude: sustain level times target amplitude, Q15.
    pub sustain_target: u32,
    /// Current envelope level, Q15.
    pub env: u32,
    /// Envelope stage and its ramp increments.
    pub stage: EnvStage,
    /// Whether the key is currently held.
    pub gate: bool,
    /// Oscillator phase accumulator.
    pub phase: u32,
    /// Allocation age: larger means assigned more recently.
    pub age: u32,
    /// Low-pass register of the state-variable filter.
    pub filter_low: i32,
    /// Band-pass register of the state-variable filter.
    pub filter_band: i32,
}

impl Voice {
    /// Well-formedness: levels within one Q15 unit, ramp increments
    /// bounded, a silent idle stage, filter registers within their
    /// saturation bound.
    pub open spec fn wf(self) -> bool {
        &&& self.env <= 32768
        &&& self.target_amp <= 32768
        &&& self.sustain_target <= self.target_amp
        &&& (self.stage is Idle ==> self.env == 0)
        &&& (match self.stage {
            EnvStage::Attack { attack_inc, decay_inc } => attack_inc <= 32768 && decay_inc
                <= 32768,
            EnvStage::Decay { decay_inc } => decay_inc <= 32768,
            EnvStage::Release { release_start, release_total, release_left } => {
                &&& release_start <= 32768
                &&& 1 <= release_total <= 144000
                &&& 1 <= release_left <= release_total
                &&& self.env == (release_start as int) * (release_left as int) / (
                release_total as int)
            },
            _ => true,
        })
        &&& -FILTER_STATE_BOUND <= self.filter_low <= FILTER_STATE_BOUND
        &&& -FILTER_STATE_BOUND <= self.filter_band <= FILTER_STATE_BOUND
    }

    /// A voice is active while its envelope has not fallen silent: either
    /// a stage is running or some level remains.
    pub open spec fn spec_active(self) -> bool {
        !(self.stage is Idle) || self.env > 0
    }

    /// Runtime form of `spec_active`.
    pub fn active(&self) -> (r: bool)
        ensures
            r == self.spec_active(),
    {
        !(matches!(self.stage, EnvStage::Idle)) || self.env > 0
    }
}

/// The voice every slot holds at construction: silent, idle, zero phase.
pub open spec fn spec_idle_voice() -> Voice {
    Voice {
        note: 0u8,
        freq_millihz: 0u32,
        phase_inc: 0u32,
        target_amp: 0u32,
        sustain_target: 0u32,
        env: 0u32,
        stage: EnvStage::Idle,
        gate: false,
        phase: 0u32,
        age: 0u32,
        filter_low: 0i32,
        filter_band: 0i32,
    }
}

impl Voice {
    /// A fresh, silent voice.
    pub fn new() -> (v: Voice)
        ensures
            v == spec_idle_voice(),
            v.wf(),
    {
        Voice {
            note: 0,
            freq_millihz: 0,
            phase_inc: 0,
            target_amp: 0,
            sustain_target: 0,
            env: 0,
            stage: EnvStage::Idle,
            gate: false,
            phase: 0,
            age: 0,
            filter_low: 0,
            filter_band: 0,
        }
    }
}

/// Per-sample phase step for a frequency in millihertz: the fraction
/// freq / (sample rate), scaled to the 32-bit phase accumulator.
pub open spec fn spec_phase_inc(freq_millihz: u32) -> u32 {
    ((freq_millihz as int) * 0x1_0000_0000 / 48_000_000) as u32
}

/// One envelope transition, evaluated once per sample (the state machine
/// of the ADSR envelope):
/// * `Attack` ramps up and clamps at the target amplitude, then decays;
/// * `Decay` ramps down and clamps at the sustain target, then sustains;
/// * `Sustain` holds until an external release;
/// * `Release` ramps down and ends idle and silent, with `gate` false;
/// * `Idle` rests.
pub open spec fn spec_env_step(v: Voice) -> Voice {
    match v.stage {
        EnvStage::Idle => v,
        EnvStage::Attack { attack_inc, decay_inc } => {
            let e2 = v.env + attack_inc;
            if e2 >= v.target_amp {
                Voice { env: v.target_amp, stage: EnvStage::Decay { decay_inc }, ..v }
            } else {
                Voice { env: e2 as u32, ..v }
            }
        },
        EnvStage::Decay { decay_inc } => {
            if v.env <= v.sustain_target + decay_inc {
                Voice { env: v.sustain_target, stage: EnvStage::Sustain, ..v }
            } else {
                Voice { env: (v.env - decay_inc) as u32, ..v }
            }
        },
        EnvStage::Sustain => v,
        EnvStage::Release { release_start, release_total, release_left } => {
            let e2 = (release_start as int) * (release_left - 1) / (release_total as int);
            if e2 == 0 {
                Voice { env: 0u32, stage: EnvStage::Idle, gate: false, ..v }
            } else {
                Voice {
                    env: e2 as u32,
                    stage: EnvStage::Release {
                        release_start,
                        release_total,
                        release_left: (release_left - 1) as u32,
                    },
                    ..v
                }
            }
        },
    }
}

/// The envelope transition preserves well-formedness.
pub proof fn lemma_env_step_wf(v: Voice)
    requires
        v.wf(),
    ensures
        spec_env_step(v).wf(),
{
    if let EnvStage::Release { release_start, release_total, release_left } = v.stage {
        let s = release_start as int;
        let t = release_total as int;
        let l = release_left as int;
        lemma_mul_bound(s, 32768, l - 1, t);
        lemma_div_trunc_bound(s * (l - 1), t, 32768);
        lemma_mul_nonnegative(s, l - 1);
        lemma_div_nonneg_simple(s * (l - 1), t);
        if l - 1 == 0 {
            assert(s * (l - 1) == 0);
            assert((0int) / t == 0) by {
                lemma_div_by_multiple(0, t);
            }
        }
    }
}

/// The envelope after some number of samples.
pub open spec fn spec_env_iter(v: Voice, k: nat) -> Voice
    decreases k,
{
    if k == 0 {
        v
    } else {
        spec_env_step(spec_env_iter(v, (k - 1) as nat))
    }
}

/// An idle, silent voice stays exactly as it is.
pub proof fn lemma_idle_stays(v: Voice, k: nat)
    requires
        v.stage is Idle,
    ensures
        spec_env_iter(v, k) == v,
    decreases k,
{
    if k > 0 {
        lemma_idle_stays(v, (k - 1) as nat);
    }
}

/// During `Attack`, the level is non-decreasing each sample, and as long
/// as it has not passed the target it never exceeds the target.
pub proof fn lemma_attack_monotone(v: Voice)
    requires
        v.wf(),
        v.stage matches EnvStage::Attack { .. },
        v.env <= v.target_amp,
    ensures
        spec_env_step(v).env >= v.env,
        spec_env_step(v).env <= v.target_amp,
{
}

/// During `Release`, the level is non-increasing each sample.
pub proof fn lemma_release_monotone(v: Voice)
    requires
        v.wf(),
        v.stage matches EnvStage::Release { .. },
    ensures
        spec_env_step(v).env <= v.env,
{
    if let EnvStage::Release { release_start, release_total, release_left } = v.stage {
        let s = release_start as int;
        let t = release_total as int;
        let l = release_left as int;
        lemma_mul_inequality(l - 1, l, s);
        lemma_div_is_ordered(s * (l - 1), s * l, t);
        lemma_mul_nonnegative(s, l - 1);
        lemma_div_nonneg_simple(s * (l - 1), t);
    }
}

/// Releasing a note: set `gate` to false and enter `Release` with a linear
/// ramp that brings the current level to zero over the release time, so
/// the release duration is perceptually consistent wherever the envelope
/// was.
pub open spec fn spec_voice_note_off(v: Voice, release_ms: u32) -> Voice {
    let rs = (release_ms * 48) as u32;
    Voice {
        gate: false,
        stage: EnvStage::Release {
            release_start: v.env,
            release_total: rs,
            release_left: rs,
        },
        ..v
    }
}

/// A quotient of non-negative values is non-negative.
proof fn lemma_div_nonneg_simple(x: int, d: int)
    requires
        x >= 0,
        d >= 1,
    ensures
        x / d >= 0,
{
    assert(x / d >= 0) by (nonlinear_arith)
        requires
            x >= 0,
            d >= 1,
    ;
}

/// The released envelope traces the quantized ideal ramp exactly: `k`
/// samples after a note-off at level `e0` with `total` release samples,
/// the level is `e0 * (total - k) / total`; `gate` stays false; while
/// the ramp is audible the voice is still in `Release` with `total - k`
/// samples to go, and the instant the ramp quantizes to zero the voice is
/// idle.
pub proof fn lemma_release_ramp(v: Voice, release_ms: u32, k: nat)
    requires
        v.wf(),
        1 <= release_ms <= 3000,
        k <= release_ms * 48,
    ensures
        ({
            let w = spec_env_iter(spec_voice_note_off(v, release_ms), k);
            let t = (release_ms * 48) as int;
            let ramp = (v.env as int) * (t - k) / t;
            &&& w.env == ramp
            &&& !w.gate
            &&& (ramp > 0 ==> w.stage == (EnvStage::Release {
                release_start: v.env,
                release_total: (release_ms * 48) as u32,
                release_left: (t - k) as u32,
            }))
            &&& (k == 0 ==> w.stage == (EnvStage::Release {
                release_start: v.env,
                release_total: (release_ms * 48) as u32,
                release_left: (release_ms * 48) as u32,
            }))
            &&& (ramp == 0 && k >= 1 ==> w.stage is Idle)
        }),
    decreases k,
{
    let r = spec_voice_note_off(v, release_ms);
    let e0 = v.env as int;
    let t = (release_ms * 48) as int;
    lemma_div_by_multiple(e0, t);
    if k == 0 {
        assert(spec_env_iter(r, 0) == r);
        assert(r.env == e0 * (t - 0) / t);
    } else {
        lemma_release_ramp(v, release_ms, (k - 1) as nat);
        let w = spec_env_iter(r, (k - 1) as nat);
        let ramp_prev = e0 * (t - (k - 1)) / t;
        let ramp_k = e0 * (t - k) / t;
        lemma_mul_inequality(t - k, t - (k - 1), e0);
        lemma_div_is_ordered(e0 * (t - k), e0 * (t - (k - 1)), t);
        lemma_mul_nonnegative(e0, t - k);
        lemma_div_nonneg_simple(e0 * (t - k), t);
        assert(spec_env_iter(r, k) == spec_env_step(w));
        if ramp_prev == 0 && k - 1 >= 1 {
            // the ramp had already quantized to zero and the voice is
            // already idle; it stays that way
            assert(w.stage is Idle);
            assert(ramp_k == 0);
        } else {
            // the voice is still in Release with t - (k - 1) samples
            // left; one step computes exactly ramp_k
            assert(w.stage == (EnvStage::Release {
                release_start: v.env,
                release_total: (release_ms * 48) as u32,
                release_left: (t - (k - 1)) as u32,
            }));
            assert(spec_env_step(w).env == ramp_k);
        }
    }
}

/// A released voice is exactly silent, idle and ungated within the
/// configured release duration in samples.
pub proof fn lemma_note_off_silences(v: Voice, release_ms: u32)
    requires
        v.wf(),
        1 <= release_ms <= 3000,
    ensures
        spec_env_iter(spec_voice_note_off(v, release_ms), (release_ms * 48) as nat).env == 0,
        spec_env_iter(spec_voice_note_off(v, release_ms), (release_ms * 48) as nat).stage
            is Idle,
{
    let t = (release_ms * 48) as int;
    lemma_release_ramp(v, release_ms, (release_ms * 48) as nat);
    assert((v.env as int) * (t - t) == 0) by (nonlinear_arith);
    assert(0int / t == 0) by {
        lemma_div_by_multiple(0, t);
    }
}

/// Assigning a note to a voice: set pitch, amplitude target and ramp
/// increments, hold `gate` true, stamp the age, and start the attack. The
/// current envelope level is kept (not reset) so a stolen voice ramps
/// from where it was, avoiding an audible click.
pub open spec fn spec_start_voice(
    v: Voice,
    note: u8,
    freq_millihz: u32,
    velocity: u8,
    age: u32,
    attack_ms: u32,
    decay_ms: u32,
    sustain_q15: u32,
) -> Voice {
    let target = ((velocity as int) * 32768 / 127) as u32;
    let st = ((sustain_q15 as int) * (target as int) / 32768) as u32;
    let atk = (attack_ms * 48) as int;
    let a_inc = ((target + atk - 1) / atk) as u32;
    let dk = (decay_ms * 48) as int;
    let d_inc = (((target - st) + dk - 1) / dk) as u32;
    Voice {
        note,
        freq_millihz,
        phase_inc: spec_phase_inc(freq_millihz),
        target_amp: target,
        sustain_target: st,
        stage: EnvStage::Attack { attack_inc: a_inc, decay_inc: d_inc },
        gate: true,
        age,
        ..v
    }
}

impl Voice {
    /// Assign a note to this voice (see `spec_start_voice`).
    pub fn start_with_adsr(
        &mut self,
        note: u8,
        freq_millihz: u32,
        velocity: u8,
        age: u32,
        attack_ms: u32,
        decay_ms: u32,
        sustain_q15: u32,
    )
        requires
            old(self).wf(),
            note <= 127,
            1 <= velocity <= 127,
            freq_millihz <= 12_543_854,
            1 <= attack_ms <= 2000,
            1 <= decay_ms <= 2000,
            sustain_q15 <= 32768,
        ensures
            *final(self) == spec_start_voice(
                *old(self),
                note,
                freq_millihz,
                velocity,
                age,
                attack_ms,
                decay_ms,
                sustain_q15,
            ),
            final(self).wf(),
    {
        let target = (velocity as u32) * 32768 / 127;
        proof {
            lemma_div_trunc_bound((velocity as int) * 32768, 127, 32768);
        }
        proof {
            lemma_mul_bound(target as int, target as int, sustain_q15 as int, 32768);
            lemma_div_trunc_bound((sustain_q15 as int) * (target as int), 32768, target as int);
        }
        let st = sustain_q15 * target / 32768;
        let atk = attack_ms * 48;
        let a_inc = (target + atk - 1) / atk;
        proof {
            lemma_div_trunc_bound((target + atk - 1) as int, atk as int, 32768);
        }
        let dk = decay_ms * 48;
        let d_inc = ((target - st) + dk - 1) / dk;
        proof {
            lemma_div_trunc_bound(((target - st) + dk - 1) as int, dk as int, 32768);
        }
        let p64 = (freq_millihz as u64) * 0x1_0000_0000;
        let pinc = (p64 / 48_000_000) as u32;
        proof {
            lemma_div_trunc_bound(p64 as int, 48_000_000, 0xFFFF_FFFF);
        }
        self.note = note;
        self.freq_millihz = freq_millihz;
        self.phase_inc = pinc;
        self.target_amp = target;
        self.sustain_target = st;
        self.stage = EnvStage::Attack { attack_inc: a_inc, decay_inc: d_inc };
        self.gate = true;
        self.age = age;
    }

    /// Release this voice (see `spec_voice_note_off`).
    pub fn note_off(&mut self, release_ms: u32)
        requires
            old(self).wf(),
            1 <= release_ms <= 3000,
        ensures
            *final(self) == spec_voice_note_off(*old(self), release_ms),
            final(self).wf(),
    {
        self.gate = false;
        let rs = release_ms * 48;
        proof {
            lemma_div_by_multiple(self.env as int, rs as int);
        }
        self.stage = EnvStage::Release {
            release_start: self.env,
            release_total: rs,
            release_left: rs,
        };
    }
}

/// The voice after one rendered sample: the envelope steps, the phase
/// advances (wrapping), and, while the voice is audible, the oscillator
/// output passes through the filter, updating its registers.
pub open spec fn spec_voice_after(v: Voice, w: Waveform, f: u32, q: u32) -> Voice {
    let v1 = spec_env_step(v);
    let v2 = Voice {
        phase: ((v1.phase as int + v1.phase_inc as int) % 0x1_0000_0000) as u32,
        ..v1
    };
    if v2.env > 0 {
        let s = spec_osc_sample(w, v2.phase);
        let r = spec_filter_next(
            v2.filter_low as int,
            v2.filter_band as int,
            f as int,
            q as int,
            s,
        );
        Voice { filter_low: r.0 as i32, filter_band: r.1 as i32, ..v2 }
    } else {
        v2
    }
}

/// What the voice adds to the mix for that sample: the filtered output
/// scaled by the new envelope level, or nothing while silent.
pub open spec fn spec_voice_contrib(v: Voice, w: Waveform, f: u32, q: u32) -> int {
    let a = spec_voice_after(v, w, f, q);
    if a.env > 0 {
        spec_div_trunc((a.filter_low as int) * (a.env as int), 32768)
    } else {
        0
    }
}

impl Voice {
    /// Render one sample of this voice: advance envelope, phase and
    /// filter, and return the voice's contribution to the mix.
    pub fn tick(&mut self, w: &Waveform, f: u32, q: u32) -> (c: i64)
        requires
            old(self).wf(),
            f <= FILTER_F_MAX,
            q <= 32768,
        ensures
            *final(self) == spec_voice_after(*old(self), *w, f, q),
            c == spec_voice_contrib(*old(self), *w, f, q),
            final(self).wf(),
            -FILTER_STATE_BOUND <= c <= FILTER_STATE_BOUND,
    {
        self.env_step();
        let p64 = (self.phase as u64) + (self.phase_inc as u64);
        self.phase = (p64 % 0x1_0000_0000) as u32;
        if self.env > 0 {
            let s = osc_sample(w, self.phase);
            let r = filter_step(self.filter_low, self.filter_band, f, q, s);
            self.filter_low = r.0;
            self.filter_band = r.1;
            proof {
                lemma_mul_bound(
                    self.env as int,
                    32768,
                    self.filter_low as int,
                    FILTER_STATE_BOUND as int,
                );
            }
            let c = div_trunc_i64((self.filter_low as i64) * (self.env as i64), 32768);
            proof {
                lemma_div_trunc_bound(
                    (self.filter_low as int) * (self.env as int),
                    32768,
                    FILTER_STATE_BOUND as int,
                );
            }
            c
        } else {
            0
        }
    }

    /// Advance the envelope by one sample (see `spec_env_step`).
    fn env_step(&mut self)
        requires
            old(self).wf(),
        ensures
            *final(self) == spec_env_step(*old(self)),
            final(self).wf(),
    {
        proof {
            lemma_env_step_wf(*self);
        }
        match self.stage {
            EnvStage::Idle => {},
            EnvStage::Attack { attack_inc, decay_inc } => {
                let e2 = self.env + attack_inc;
                if e2 >= self.target_amp {
                    self.env = self.target_amp;
                    self.stage = EnvStage::Decay { decay_inc };
                } else {
                    self.env = e2;
                }
            },
            EnvStage::Decay { decay_inc } => {
                if self.env <= self.sustain_target + decay_inc {
                    self.env = self.sustain_target;
                    self.stage = EnvStage::Sustain;
                } else {
                    self.env = self.env - decay_inc;
                }
            },
            EnvStage::Sustain => {},
            EnvStage::Release { release_start, release_total, release_left } => {
                let l2 = release_left - 1;
                proof {
                    lemma_mul_bound(release_start as int, 32768, l2 as int, release_total as int);
                    lemma_div_trunc_bound(
                        (release_start as int) * (l2 as int),
                        release_total as int,
                        32768,
                    );
                }
                let e2 = (((release_start as u64) * (l2 as u64)) / (release_total as u64)) as u32;
                if e2 == 0 {
                    self.env = 0;
                    self.stage = EnvStage::Idle;
                    self.gate = false;
                } else {
                    self.env = e2;
                    self.stage = EnvStage::Release {
                        release_start,
                        release_total,
                        release_left: l2,
                    };
                }
            },
        }
    }
}

} // verus!
