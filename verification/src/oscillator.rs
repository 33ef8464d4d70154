//! Phase-accumulating oscillator: tracks the position within one waveform
//! cycle as a fixed-point fraction of a turn and wraps modulo one cycle, so
//! the phase stays in `[0, 1)` cycles however large the frequency is.

use vstd::prelude::*;
use vstd::arithmetic::div_mod::lemma_div_nonincreasing;
use crate::PHASE_SCALE;

verus! {

/// Phase gained per sample at `freq_mhz` thousandths of a hertz and
/// `sample_rate` samples per second, in `1 / PHASE_SCALE` turns, rounded
/// down.
pub open spec fn phase_increment(freq_mhz: int, sample_rate: int) -> int {
    freq_mhz * (PHASE_SCALE as int) / (1000 * sample_rate)
}

/// Oscillator state: the operating sample rate in hertz and the current
/// phase in `1 / PHASE_SCALE` turns, always below one full turn.
#[derive(Copy, Clone, Debug)]
pub struct OscillatorState {
    pub sample_rate: u32,
    pub phase: u64,
}

impl OscillatorState {
    /// Returns the phase *before* advancing — so the first call after a
    /// phase reset returns exactly the reset phase — then accumulates one
    /// sample's worth of the given frequency and wraps modulo one cycle.
    /// The new phase is below `PHASE_SCALE` whatever the frequency and
    /// however many times the oscillator has advanced before.
    pub fn advance(&mut self, frequency_mhz: u64) -> (r: u64)
        requires
            old(self).sample_rate > 0,
        ensures
            r == old(self).phase,
            final(self).sample_rate == old(self).sample_rate,
            final(self).phase == (old(self).phase + phase_increment(
                frequency_mhz as int,
                old(self).sample_rate as int,
            )) % (PHASE_SCALE as int),
            final(self).phase < PHASE_SCALE,
    {
        let old_phase: u64 = self.phase;
        proof {
            assert((frequency_mhz as int) * (PHASE_SCALE as int)
                <= 0xFFFF_FFFF_FFFF_FFFF * 0x1_0000_0000) by (nonlinear_arith)
                requires
                    0 <= frequency_mhz <= 0xFFFF_FFFF_FFFF_FFFFu64,
                    PHASE_SCALE == 0x1_0000_0000u64,
            ;
        }
        let product: u128 = (frequency_mhz as u128) * (PHASE_SCALE as u128);
        let divisor: u128 = 1000u128 * (self.sample_rate as u128);
        let inc: u128 = product / divisor;
        proof {
            lemma_div_nonincreasing(product as int, divisor as int);
        }
        let wrapped: u128 = ((self.phase as u128) + inc) % (PHASE_SCALE as u128);
        self.phase = wrapped as u64;
        old_phase
    }
}

impl Default for OscillatorState {
    /// An oscillator at phase zero, before any sample rate was reported.
    fn default() -> (r: Self)
        ensures
            r == (OscillatorState { sample_rate: 0u32, phase: 0u64 }),
    {
        OscillatorState { sample_rate: 0, phase: 0 }
    }
}

} // verus!
