//! Voice controller: owns the pitch envelope, the amplitude envelope and the
//! oscillator, routes trigger events to both envelopes with last-note
//! priority, and drives the per-sample pipeline
//! `pitch envelope -> pitch mapper -> oscillator`.
//!
//! The controller hands the adapter layer a `(phase, amplitude)` pair per
//! sample; the adapter applies the waveform shaper to the phase and scales
//! it by the amplitude to form the output sample.

use vstd::prelude::*;
use crate::envelope::AhdsrStage;
use crate::envelope::AhdsrState;
use crate::envelope::AhdsrValues;
use crate::envelope::clamp_values;
use crate::envelope::env_step;
use crate::envelope::set_stage_spec;
use crate::oscillator::OscillatorState;
use crate::oscillator::phase_increment;
use crate::pitch::lerp;
use crate::pitch::lerp_spec;
use crate::LEVEL_SCALE;
use crate::PHASE_SCALE;

verus! {

/// `v` clamped into `[0, LEVEL_SCALE]`.
pub open spec fn clamp_level(v: u64) -> u64 {
    if v <= LEVEL_SCALE {
        v
    } else {
        LEVEL_SCALE
    }
}

/// The monophonic voice: one pitch envelope, one amplitude envelope, one
/// oscillator, and the identity of the currently held note, used to honor a
/// note-off only when it matches the most recent note-on still held.
pub struct KickSynth {
    pub sample_rate: u32,
    pub osc_state: OscillatorState,
    pub pitch_env_state: AhdsrState,
    pub amp_env_state: AhdsrState,
    pub last_midi_note: Option<u8>,
    pub midi_velocity: u64,
}

/// State and output pair of one rendered sample: both envelopes step once on
/// the freshly clamped parameters, the pitch envelope's output is mapped
/// linearly from `end_freq_mhz` (envelope at zero) to `start_freq_mhz`
/// (envelope at full level), the oscillator accumulates that frequency, and
/// the output pair is the oscillator's phase before accumulating together
/// with the amplitude envelope's output. An uninitialized voice (sample rate
/// zero) changes nothing and yields silence.
pub open spec fn render_spec(
    st: KickSynth,
    pitch_values: AhdsrValues,
    amp_values: AhdsrValues,
    start_freq_mhz: u64,
    end_freq_mhz: u64,
) -> (KickSynth, (u64, u64)) {
    if st.sample_rate == 0 {
        (st, (0u64, 0u64))
    } else {
        let pitch_stepped = env_step(
            AhdsrState { params: clamp_values(pitch_values), ..st.pitch_env_state },
        );
        let amp_stepped = env_step(
            AhdsrState { params: clamp_values(amp_values), ..st.amp_env_state },
        );
        let freq = lerp_spec(pitch_stepped.1 as int, end_freq_mhz as int, start_freq_mhz as int);
        let next_phase = (st.osc_state.phase + phase_increment(freq, st.sample_rate as int))
            % (PHASE_SCALE as int);
        let stepped = KickSynth {
            pitch_env_state: pitch_stepped.0,
            amp_env_state: amp_stepped.0,
            osc_state: OscillatorState { phase: next_phase as u64, ..st.osc_state },
            ..st
        };
        (stepped, (st.osc_state.phase, amp_stepped.1))
    }
}

impl KickSynth {
    /// Envelope levels are valid, the oscillator phase is within one cycle,
    /// and the oscillator runs at the voice's sample rate.
    pub open spec fn wf(self) -> bool {
        self.pitch_env_state.wf()
            && self.amp_env_state.wf()
            && self.midi_velocity <= LEVEL_SCALE
            && self.osc_state.phase < PHASE_SCALE
            && self.osc_state.sample_rate == self.sample_rate
    }

    /// Applies the sample rate the host reports, on initialization or on a
    /// later rate change; the envelopes' elapsed-sample counters are reset so
    /// that no time measured under the old rate carries over.
    pub fn initialize(&mut self, sample_rate: u32)
        ensures
            final(self).sample_rate == sample_rate,
            final(self).osc_state == (OscillatorState {
                sample_rate,
                ..old(self).osc_state
            }),
            final(self).pitch_env_state == (AhdsrState {
                samples_since_stage_start: 0u64,
                ..old(self).pitch_env_state
            }),
            final(self).amp_env_state == (AhdsrState {
                samples_since_stage_start: 0u64,
                ..old(self).amp_env_state
            }),
            final(self).last_midi_note == old(self).last_midi_note,
            final(self).midi_velocity == old(self).midi_velocity,
            old(self).wf() ==> final(self).wf(),
    {
        self.sample_rate = sample_rate;
        self.osc_state.sample_rate = sample_rate;
        self.pitch_env_state.samples_since_stage_start = 0;
        self.amp_env_state.samples_since_stage_start = 0;
    }

    /// Note-on: records the note as held, stores its velocity (clamped to a
    /// valid level), resets the oscillator phase to the configured offset
    /// reduced into one cycle, and forces both envelopes to Attack. Each
    /// envelope's new segment starts from its current output level, so a
    /// retrigger while a note is still sounding is free of discontinuity.
    pub fn on_note_on(&mut self, note: u8, velocity: u64, phase_offset: u64)
        requires
            old(self).wf(),
        ensures
            final(self).wf(),
            final(self).last_midi_note == Some(note),
            final(self).midi_velocity == clamp_level(velocity),
            final(self).osc_state == (OscillatorState {
                phase: (phase_offset % PHASE_SCALE) as u64,
                ..old(self).osc_state
            }),
            final(self).pitch_env_state == set_stage_spec(
                old(self).pitch_env_state,
                AhdsrStage::Attack,
            ),
            final(self).amp_env_state == set_stage_spec(
                old(self).amp_env_state,
                AhdsrStage::Attack,
            ),
            final(self).pitch_env_state.current == old(self).pitch_env_state.current,
            final(self).amp_env_state.current == old(self).amp_env_state.current,
            final(self).sample_rate == old(self).sample_rate,
    {
        self.last_midi_note = Some(note);
        self.midi_velocity = if velocity <= LEVEL_SCALE {
            velocity
        } else {
            LEVEL_SCALE
        };
        self.osc_state.phase = phase_offset % PHASE_SCALE;
        self.pitch_env_state.trigger(true);
        self.amp_env_state.trigger(true);
    }

    /// Note-off with last-note priority: only a note-off that matches the
    /// currently held note clears it and forces both envelopes to Release; a
    /// note-off for a note superseded by a later note-on changes nothing.
    pub fn on_note_off(&mut self, note: u8)
        requires
            old(self).wf(),
        ensures
            final(self).wf(),
            old(self).last_midi_note == Some(note) ==> {
                &&& final(self).last_midi_note is None
                &&& final(self).pitch_env_state == set_stage_spec(
                    old(self).pitch_env_state,
                    AhdsrStage::Release,
                )
                &&& final(self).amp_env_state == set_stage_spec(
                    old(self).amp_env_state,
                    AhdsrStage::Release,
                )
                &&& final(self).osc_state == old(self).osc_state
                &&& final(self).sample_rate == old(self).sample_rate
                &&& final(self).midi_velocity == old(self).midi_velocity
            },
            old(self).last_midi_note != Some(note) ==> *final(self) == *old(self),
    {
        let held: bool = match self.last_midi_note {
            Some(n) => n == note,
            None => false,
        };
        if held {
            self.last_midi_note = None;
            self.pitch_env_state.trigger(false);
            self.amp_env_state.trigger(false);
        }
    }

    /// Renders one sample: refreshes both envelopes' working parameters,
    /// advances each exactly once, maps the pitch envelope's output to a
    /// frequency between the two endpoints, advances the oscillator with it,
    /// and returns the oscillator's pre-advance phase paired with the
    /// amplitude envelope's output — exactly `render_spec`. Before a sample
    /// rate was supplied the voice no-ops and yields silence.
    pub fn render_sample(
        &mut self,
        pitch_values: AhdsrValues,
        amp_values: AhdsrValues,
        start_freq_mhz: u64,
        end_freq_mhz: u64,
    ) -> (r: (u64, u64))
        requires
            old(self).wf(),
        ensures
            final(self).wf(),
            *final(self) == render_spec(
                *old(self),
                pitch_values,
                amp_values,
                start_freq_mhz,
                end_freq_mhz,
            ).0,
            r == render_spec(
                *old(self),
                pitch_values,
                amp_values,
                start_freq_mhz,
                end_freq_mhz,
            ).1,
            r.1 <= LEVEL_SCALE,
            old(self).sample_rate == 0 ==> *final(self) == *old(self) && r == (0u64, 0u64),
            old(self).sample_rate != 0 ==> r.0 == old(self).osc_state.phase,
    {
        if self.sample_rate == 0 {
            return (0u64, 0u64);
        }
        self.pitch_env_state.apply_params(pitch_values);
        self.amp_env_state.apply_params(amp_values);
        let pitch_out: u64 = self.pitch_env_state.advance();
        let amp_out: u64 = self.amp_env_state.advance();
        let freq_mhz: u64 = lerp(pitch_out, end_freq_mhz, start_freq_mhz);
        let phase: u64 = self.osc_state.advance(freq_mhz);
        (phase, amp_out)
    }
}

impl Default for KickSynth {
    /// A silent voice with no note held, before any sample rate was
    /// reported.
    fn default() -> (r: Self)
        ensures
            r.sample_rate == 0,
            r.osc_state == (OscillatorState { sample_rate: 0u32, phase: 0u64 }),
            r.pitch_env_state == AhdsrState::default_spec(),
            r.amp_env_state == AhdsrState::default_spec(),
            r.last_midi_note is None,
            r.midi_velocity == 0,
            r.wf(),
    {
        KickSynth {
            sample_rate: 0,
            osc_state: OscillatorState::default(),
            pitch_env_state: AhdsrState::default(),
            amp_env_state: AhdsrState::default(),
            last_midi_note: None,
            midi_velocity: 0,
        }
    }
}

} // verus!
