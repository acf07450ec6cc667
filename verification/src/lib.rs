//! A polyphonic synthesizer core in fixed-point arithmetic.
//!
//! MIDI events arrive through a bounded FIFO event queue, a voice pool
//! assigns notes to voices (stealing the oldest voice when none is idle),
//! each voice runs an ADSR envelope, an oscillator and a resonant low-pass
//! filter, and the engine renders blocks of interleaved stereo frames that
//! are handed to a hardware sink through a double-buffered delivery
//! protocol.
//!
//! All signal quantities are fixed-point integers:
//! * amplitudes and envelope levels are Q15 (`LEVEL_ONE` = 32768 is 1.0),
//! * oscillator phase is a 32-bit fraction of one cycle,
//! * frequencies are integer millihertz.

use vstd::prelude::*;

pub mod delivery;
pub mod dsp;
pub mod engine;
pub mod midi;
pub mod params;
pub mod pool;
pub mod queue;
pub mod voice;

verus! {

/// Output sample rate in frames per second. Times in milliseconds turn
/// into sample counts at 48 frames per millisecond.
pub const SAMPLE_RATE: u32 = 48_000;

/// The fixed-point unit: 1.0 in Q15. Envelope levels, amplitudes and
/// filter coefficients are fractions of this.
pub const LEVEL_ONE: u32 = 32768;

} // verus!
