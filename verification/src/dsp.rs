//! Fixed-point signal primitives: frame packing, truncating division,
//! clamping, the oscillator waveforms and the state-variable filter.

use vstd::prelude::*;
use vstd::arithmetic::div_mod::{lemma_div_is_ordered, lemma_div_by_multiple};

verus! {

/// Half a cycle of the 32-bit phase accumulator.
pub const PHASE_HALF: u32 = 0x8000_0000;

/// 2^45, the scale of the quarter-wave parabola product.
pub const SINE_SCALE: u64 = 0x2000_0000_0000;

/// Saturation bound of the filter state registers: 32 times full scale,
/// enough headroom for strong resonance.
pub const FILTER_STATE_BOUND: i32 = 1048576;

/// Largest frequency coefficient: 1.5 in Q15 (cap against instability).
pub const FILTER_F_MAX: u32 = 49152;

/// Smallest damping coefficient: 0.05 in Q15 (floor against runaway
/// feedback).
pub const FILTER_Q_MIN: u32 = 1638;

/// Peak output amplitude; leaves headroom below the 16-bit full scale.
pub const MAX_AMPLITUDE: i64 = 12000;

/// The two's-complement 16-bit image of a signed sample.
pub open spec fn spec_u16_of_i16(x: i16) -> u16 {
    if x >= 0 {
        x as u16
    } else {
        (x as int + 65536) as u16
    }
}

/// One interleaved stereo frame: left channel in the high 16 bits, right
/// channel in the low 16 bits.
pub open spec fn spec_pack_lr_16(l: i16, r: i16) -> u32 {
    ((spec_u16_of_i16(l) as int) * 65536 + spec_u16_of_i16(r) as int) as u32
}

/// Pack left and right 16-bit samples into a single 32-bit word, left in
/// the high half, as an I2S sink expects.
pub fn pack_lr_16(l: i16, r: i16) -> (w: u32)
    ensures
        w == spec_pack_lr_16(l, r),
{
    let hi: u32 = if l >= 0 {
        l as u32
    } else {
        (l as i32 + 65536) as u32
    };
    let lo: u32 = if r >= 0 {
        r as u32
    } else {
        (r as i32 + 65536) as u32
    };
    hi * 65536 + lo
}

/// Division that truncates toward zero, as the hardware divide does.
pub open spec fn spec_div_trunc(x: int, d: int) -> int
    recommends
        d >= 1,
{
    if x >= 0 {
        x / d
    } else {
        -((-x) / d)
    }
}

/// Clamp to a closed interval.
pub open spec fn spec_clamp(x: int, lo: int, hi: int) -> int
    recommends
        lo <= hi,
{
    if x < lo {
        lo
    } else if x > hi {
        hi
    } else {
        x
    }
}

/// Bound on a product of a bounded non-negative factor and a bounded
/// signed factor.
pub proof fn lemma_mul_bound(a: int, a_max: int, b: int, b_bound: int)
    requires
        0 <= a <= a_max,
        -b_bound <= b <= b_bound,
        0 <= b_bound,
    ensures
        -(a_max * b_bound) <= a * b <= a_max * b_bound,
{
    assert(-(a_max * b_bound) <= a * b <= a_max * b_bound) by (nonlinear_arith)
        requires
            0 <= a <= a_max,
            -b_bound <= b <= b_bound,
            0 <= b_bound,
    ;
}

/// A quotient is no larger than the bound that divides the numerator's
/// bound: |x| <= b * d implies |x / d| <= b (truncating division).
pub proof fn lemma_div_trunc_bound(x: int, d: int, b: int)
    requires
        d >= 1,
        b >= 0,
        -(b * d) <= x <= b * d,
    ensures
        -b <= spec_div_trunc(x, d) <= b,
{
    if x >= 0 {
        lemma_div_is_ordered(x, b * d, d);
        lemma_div_by_multiple(b, d);
        assert(x / d >= 0) by (nonlinear_arith)
            requires
                x >= 0,
                d >= 1,
        ;
    } else {
        lemma_div_is_ordered(-x, b * d, d);
        lemma_div_by_multiple(b, d);
        assert((-x) / d >= 0) by (nonlinear_arith)
            requires
                -x >= 0,
                d >= 1,
        ;
    }
}

/// Truncating division of a signed value by a positive divisor.
pub fn div_trunc_i64(x: i64, d: u64) -> (r: i64)
    requires
        1 <= d,
        -0x4000_0000_0000_0000 <= x <= 0x4000_0000_0000_0000,
        d <= 0x4000_0000_0000_0000,
    ensures
        r == spec_div_trunc(x as int, d as int),
{
    if x >= 0 {
        let q = (x as u64) / d;
        proof {
            lemma_div_is_ordered(x as int, 0x4000_0000_0000_0000, d as int);
            lemma_div_is_ordered(0, x as int, d as int);
        }
        q as i64
    } else {
        let m = ((-x) as u64) / d;
        proof {
            lemma_div_is_ordered(-(x as int), 0x4000_0000_0000_0000, d as int);
            lemma_div_is_ordered(0, -(x as int), d as int);
        }
        -(m as i64)
    }
}

/// Clamp a 64-bit value to a closed interval.
pub fn clamp_i64(x: i64, lo: i64, hi: i64) -> (r: i64)
    requires
        lo <= hi,
    ensures
        r == spec_clamp(x as int, lo as int, hi as int),
{
    if x < lo {
        lo
    } else if x > hi {
        hi
    } else {
        x
    }
}

/// The quarter-wave parabola product stays below 2^60, so the sine sample
/// stays within one Q15 unit.
pub proof fn lemma_parabola_bound(u: int)
    requires
        0 <= u <= 0x8000_0000,
    ensures
        0 <= u * (0x8000_0000 - u) <= 0x1000_0000_0000_0000,
{
    assert(0 <= u * (0x8000_0000 - u) <= 0x1000_0000_0000_0000) by (nonlinear_arith)
        requires
            0 <= u <= 0x8000_0000,
    {
        assert((u - 0x4000_0000) * (u - 0x4000_0000) >= 0);
    }
}

/// Parabolic approximation of sin(2*pi*phase) in Q15: a downward parabola
/// through 0, 1, 0 on the first half cycle, mirrored below zero on the
/// second half. Peaks at exactly one Q15 unit.
pub open spec fn spec_sine_q15(phase: u32) -> int {
    if phase < PHASE_HALF {
        (phase * (PHASE_HALF - phase)) as int / SINE_SCALE as int
    } else {
        let u = phase - PHASE_HALF;
        -((u * (PHASE_HALF - u)) as int / SINE_SCALE as int)
    }
}

/// The available waveforms; selected globally by a control change.
#[derive(Copy, Clone, PartialEq, Eq, Structural, Debug)]
pub enum Waveform {
    Sine,
    Square,
    Sawtooth,
    Triangle,
}

/// The waveform function: maps a 32-bit phase fraction to a Q15 sample in
/// [-32768, 32768].
pub open spec fn spec_osc_sample(w: Waveform, phase: u32) -> int {
    match w {
        Waveform::Sine => spec_sine_q15(phase),
        Waveform::Square => if phase < PHASE_HALF {
            32768int
        } else {
            -32768int
        },
        Waveform::Sawtooth => phase as int / 65536 - 32768,
        Waveform::Triangle => {
            let p16 = phase as int / 65536;
            if p16 < 32768 {
                2 * p16 - 32768
            } else {
                98304 - 2 * p16
            }
        },
    }
}

/// Every waveform stays within one Q15 unit of zero.
pub proof fn lemma_osc_sample_bound(w: Waveform, phase: u32)
    ensures
        -32768 <= spec_osc_sample(w, phase) <= 32768,
{
    match w {
        Waveform::Sine => {
            if phase < PHASE_HALF {
                lemma_parabola_bound(phase as int);
                lemma_div_trunc_bound((phase * (PHASE_HALF - phase)) as int, SINE_SCALE as int, 32768);
            } else {
                lemma_parabola_bound((phase - PHASE_HALF) as int);
                lemma_div_trunc_bound(
                    ((phase - PHASE_HALF) * (PHASE_HALF - (phase - PHASE_HALF))) as int,
                    SINE_SCALE as int,
                    32768,
                );
            }
        },
        _ => {},
    }
}

/// Evaluate the selected waveform at a phase.
pub fn osc_sample(w: &Waveform, phase: u32) -> (s: i32)
    ensures
        s == spec_osc_sample(*w, phase),
        -32768 <= s <= 32768,
{
    proof {
        lemma_osc_sample_bound(*w, phase);
    }
    match w {
        Waveform::Sine => {
            if phase < PHASE_HALF {
                let prod = (phase as u64) * ((PHASE_HALF - phase) as u64);
                proof {
                    lemma_parabola_bound(phase as int);
                }
                (prod / SINE_SCALE) as i32
            } else {
                let u = phase - PHASE_HALF;
                let prod = (u as u64) * ((PHASE_HALF - u) as u64);
                proof {
                    lemma_parabola_bound(u as int);
                }
                -((prod / SINE_SCALE) as i32)
            }
        },
        Waveform::Square => {
            if phase < PHASE_HALF {
                32768
            } else {
                -32768
            }
        },
        Waveform::Sawtooth => (phase / 65536) as i32 - 32768,
        Waveform::Triangle => {
            let p16 = phase / 65536;
            if p16 < 32768 {
                (2 * p16) as i32 - 32768
            } else {
                98304 - (2 * p16) as i32
            }
        },
    }
}

/// Frequency coefficient of the state-variable filter: the cutoff
/// fraction, mapped to pi/2 at full scale (51472 is pi/2 in Q15) and
/// capped at 1.5 to keep the filter stable.
pub open spec fn spec_filter_f(cutoff_q15: u32) -> u32 {
    let x = (cutoff_q15 as int) * 51472 / 32768;
    if x > FILTER_F_MAX as int {
        FILTER_F_MAX
    } else {
        x as u32
    }
}

/// Damping coefficient of the state-variable filter: 1 - 0.24 * resonance
/// in Q15 (7864 is 0.24 in Q15), floored at 0.05 so that feedback cannot
/// run away.
pub open spec fn spec_filter_q(resonance_q15: u32) -> u32 {
    let x = 32768 - (resonance_q15 as int) * 7864 / 32768;
    if x < FILTER_Q_MIN as int {
        FILTER_Q_MIN
    } else {
        x as u32
    }
}

/// Compute the frequency coefficient from the cutoff parameter.
pub fn filter_f(cutoff_q15: u32) -> (f: u32)
    requires
        cutoff_q15 <= 32768,
    ensures
        f == spec_filter_f(cutoff_q15),
        f <= FILTER_F_MAX,
{
    let x = cutoff_q15 * 51472 / 32768;
    if x > FILTER_F_MAX {
        FILTER_F_MAX
    } else {
        x
    }
}

/// Compute the damping coefficient from the resonance parameter.
pub fn filter_q(resonance_q15: u32) -> (q: u32)
    requires
        resonance_q15 <= 131072,
    ensures
        q == spec_filter_q(resonance_q15),
        FILTER_Q_MIN <= q <= 32768,
{
    let scaled = resonance_q15 * 7864 / 32768;
    proof {
        lemma_div_trunc_bound((resonance_q15 * 7864) as int, 32768, 31456);
    }
    let x = 32768 - scaled;
    if x < FILTER_Q_MIN {
        FILTER_Q_MIN
    } else {
        x
    }
}

/// One step of the Chamberlain state-variable filter: from the previous
/// low-pass and band-pass registers, the coefficients and the input
/// sample, to the new (low-pass, band-pass) registers. The registers
/// saturate at `FILTER_STATE_BOUND`.
pub open spec fn spec_filter_next(low: int, band: int, f: int, q: int, sample: int) -> (int, int) {
    let lp = low + spec_div_trunc(f * band, 32768);
    let hp = sample - lp - spec_div_trunc(q * band, 32768);
    let bp = spec_div_trunc(f * hp, 32768) + band;
    (
        spec_clamp(lp, -(FILTER_STATE_BOUND as int), FILTER_STATE_BOUND as int),
        spec_clamp(bp, -(FILTER_STATE_BOUND as int), FILTER_STATE_BOUND as int),
    )
}

/// Advance the filter by one sample.
pub fn filter_step(low: i32, band: i32, f: u32, q: u32, sample: i32) -> (r: (i32, i32))
    requires
        -FILTER_STATE_BOUND <= low <= FILTER_STATE_BOUND,
        -FILTER_STATE_BOUND <= band <= FILTER_STATE_BOUND,
        f <= FILTER_F_MAX,
        q <= 32768,
        -32768 <= sample <= 32768,
    ensures
        (r.0 as int, r.1 as int) == spec_filter_next(low as int, band as int, f as int, q as int, sample as int),
        -FILTER_STATE_BOUND <= r.0 <= FILTER_STATE_BOUND,
        -FILTER_STATE_BOUND <= r.1 <= FILTER_STATE_BOUND,
{
    proof {
        lemma_mul_bound(f as int, FILTER_F_MAX as int, band as int, FILTER_STATE_BOUND as int);
    }
    let fb = div_trunc_i64((f as i64) * (band as i64), 32768);
    proof {
        lemma_div_trunc_bound((f as int) * (band as int), 32768, 1572864);
    }
    let lp = (low as i64) + fb;
    proof {
        lemma_mul_bound(q as int, 32768, band as int, FILTER_STATE_BOUND as int);
    }
    let qb = div_trunc_i64((q as i64) * (band as i64), 32768);
    proof {
        lemma_div_trunc_bound((q as int) * (band as int), 32768, 1048576);
    }
    let hp = (sample as i64) - lp - qb;
    proof {
        lemma_mul_bound(f as int, FILTER_F_MAX as int, hp as int, 3702784);
    }
    let fh = div_trunc_i64((f as i64) * hp, 32768);
    proof {
        lemma_div_trunc_bound((f as int) * (hp as int), 32768, 5554176);
    }
    let bp = fh + (band as i64);
    let low2 = clamp_i64(lp, -(FILTER_STATE_BOUND as i64), FILTER_STATE_BOUND as i64);
    let band2 = clamp_i64(bp, -(FILTER_STATE_BOUND as i64), FILTER_STATE_BOUND as i64);
    (low2 as i32, band2 as i32)
}

/// Scale the voice mix to an output sample: normalize by the pool size,
/// apply the headroom factor, and saturate into the signed 16-bit range
/// (mirroring a saturating float-to-integer conversion).
pub open spec fn spec_scale_sample(mix: int, n: int) -> int
    recommends
        n >= 1,
{
    spec_clamp(spec_div_trunc(mix * MAX_AMPLITUDE as int, n * 32768), -32768, 32767)
}

/// Turn the summed voice mix into one output sample.
pub fn scale_mix_to_sample(mix: i64, n: usize) -> (s: i16)
    requires
        1 <= n <= 1024,
        -(n as i64) * (FILTER_STATE_BOUND as i64) <= mix <= (n as i64) * (FILTER_STATE_BOUND as i64),
    ensures
        s as int == spec_scale_sample(mix as int, n as int),
{
    proof {
        assert(-(0x4000_0000_0000_0000int) <= (mix as int) * (MAX_AMPLITUDE as int)
            <= 0x4000_0000_0000_0000int) by (nonlinear_arith)
            requires
                -(n as int) * (FILTER_STATE_BOUND as int) <= mix as int
                    <= (n as int) * (FILTER_STATE_BOUND as int),
                1 <= n as int <= 1024,
        ;
    }
    let num = mix * MAX_AMPLITUDE;
    let den = (n as u64) * 32768;
    let q = div_trunc_i64(num, den);
    let c = clamp_i64(q, -32768, 32767);
    c as i16
}

/// The voice mix, after scaling, always fits the signed 16-bit range.
pub proof fn lemma_scale_sample_bound(mix: int, n: int)
    requires
        n >= 1,
    ensures
        -32768 <= spec_scale_sample(mix, n) <= 32767,
{
}

} // verus!
