//! Signal-generation core of a monophonic percussive synthesizer voice.
//!
//! Two AHDSR envelope generators (one for pitch, one for amplitude) advance
//! at audio rate with sample-accurate stage timing, a pitch mapper turns the
//! pitch envelope's output into an instantaneous frequency between two
//! configured endpoints, and a phase-accumulating oscillator integrates that
//! frequency into a cycle position. A host-facing adapter layer owns the
//! waveform shaper and all parameter conversion.
//!
//! Every quantity in the core is fixed point, so that the real-time path is
//! free of floating point:
//! - envelope levels are integers in `[0, LEVEL_SCALE]`, where `LEVEL_SCALE`
//!   units stand for a level of one;
//! - stage durations are whole sample counts (the adapter multiplies a
//!   duration in seconds by the sample rate);
//! - frequencies are in thousandths of a hertz;
//! - oscillator phase is an integer number of `1 / PHASE_SCALE` turns, so a
//!   phase value always lies in `[0, 1)` cycles.

use vstd::prelude::*;

pub mod envelope;
pub mod oscillator;
pub mod pitch;
pub mod voice;

pub use envelope::AhdsrStage;
pub use envelope::AhdsrState;
pub use envelope::AhdsrValues;
pub use oscillator::OscillatorState;
pub use pitch::lerp;
pub use pitch::lerp_spec;
pub use voice::KickSynth;

verus! {

/// Number of fixed-point units in an envelope level of one.
pub const LEVEL_SCALE: u64 = 1_000_000;

/// Number of fixed-point units in one full oscillator cycle.
pub const PHASE_SCALE: u64 = 0x1_0000_0000;

} // verus!
