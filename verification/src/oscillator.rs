//! The oscillator: a lookup table read at a phase that advances by a fixed
//! increment with every sample.

use crate::phase::{
    advance, lemma_phase_steps_compose, phase_after, phase_increment, phase_increment_for,
};
use crate::text::lowercase_of;
use crate::tone::{ToneError, ToneErrorView};
use crate::units::{in_full_scale, ONE};
use crate::waveform::{
    named_waveform, table_for, unknown_waveform_text, WaveformKind, WaveformType,
};
use crate::wavetable::{interpolate, is_cycle, WaveformTable};
use rand::Rng;
use vstd::prelude::*;

verus! {

/// Draws an integer from `low` to `high`, both included, with
/// `rand::thread_rng().gen_range(low..=high)`. The call panics on an empty
/// range, which the precondition rules out. It also panics where the
/// operating system gives the generator no seed, at its first use in a thread
/// and again whenever it reseeds itself after some tens of kilobytes; no
/// argument decides that. Of the value drawn it is claimed only that it lies
/// in the range.
#[verifier::external_body]
pub(crate) fn random_in_range(low: i32, high: i32) -> (value: i32)
    requires
        low <= high,
    ensures
        low <= value <= high,
{
    rand::thread_rng().gen_range(low..=high)
}

/// An oscillator over one waveform.
#[derive(Debug)]
pub struct Oscillator {
    waveform: WaveformType,
    phase: u32,
    phase_increment: u32,
    sample_rate: u32,
    lookup_table: WaveformTable,
}

/// What an oscillator is at one moment.
pub struct OscillatorState {
    /// The waveform.
    pub kind: WaveformKind,
    /// The phase accumulator.
    pub phase: u32,
    /// What a sample adds to the phase.
    pub increment: u32,
    /// Samples per second.
    pub sample_rate: u32,
    /// The lookup table.
    pub table: Seq<i32>,
}

impl View for Oscillator {
    type V = OscillatorState;

    closed spec fn view(&self) -> OscillatorState {
        OscillatorState {
            kind: self.waveform@,
            phase: self.phase,
            increment: self.phase_increment,
            sample_rate: self.sample_rate,
            table: self.lookup_table@,
        }
    }
}

impl Clone for Oscillator {
    fn clone(&self) -> (copy: Oscillator)
        ensures
            copy@ == self@,
    {
        Oscillator {
            waveform: self.waveform.clone(),
            phase: self.phase,
            phase_increment: self.phase_increment,
            sample_rate: self.sample_rate,
            lookup_table: self.lookup_table.clone(),
        }
    }
}

/// The sample that an oscillator in state `state` gives next: read from the
/// table at the present phase, or `noise` if the waveform is noise.
pub open spec fn next_sample(state: OscillatorState, noise: i32) -> int {
    if state.kind is WhiteNoise {
        noise as int
    } else {
        interpolate(state.table, state.phase)
    }
}

/// The state after one sample: the phase has advanced by the increment,
/// wrapping at the end of the cycle, and nothing else has changed.
pub open spec fn stepped(state: OscillatorState) -> OscillatorState {
    OscillatorState { phase: phase_after(state.phase, state.increment, 1), ..state }
}

/// The state after `steps` samples.
pub open spec fn stepped_by(state: OscillatorState, steps: nat) -> OscillatorState
    decreases steps,
{
    if steps == 0 {
        state
    } else {
        stepped(stepped_by(state, (steps - 1) as nat))
    }
}

/// The run of an oscillator is fixed by where it starts: after any number of
/// samples its phase is the starting phase plus that many increments, modulo
/// one cycle, and nothing else has changed. So the sample it gives at each
/// step, unless it is noise, is a function of the starting state alone.
pub proof fn lemma_phase_is_linear_in_steps(state: OscillatorState, steps: nat)
    ensures
        stepped_by(state, steps) == (OscillatorState {
            phase: phase_after(state.phase, state.increment, steps),
            ..state
        }),
    decreases steps,
{
    if steps == 0 {
        lemma_phase_steps_compose(state.phase, state.increment, 0, 0);
    } else {
        lemma_phase_is_linear_in_steps(state, (steps - 1) as nat);
        lemma_phase_steps_compose(state.phase, state.increment, (steps - 1) as nat, 1);
    }
}

impl Oscillator {
    /// An oscillator at phase 0 that stands still until a frequency is set.
    /// Its table is built here, once; `sine` is the cycle that a sine and the
    /// harmonics are read from.
    pub fn new(waveform: WaveformType, sample_rate: u32, sine: &WaveformTable) -> (oscillator:
        Oscillator)
        ensures
            oscillator@ == (OscillatorState {
                kind: waveform@,
                phase: 0,
                increment: 0,
                sample_rate,
                table: table_for(waveform@, sine@),
            }),
            is_cycle(oscillator@.table),
    {
        let lookup_table = waveform.build_table(sine);
        proof {
            use_type_invariant(&lookup_table);
            lookup_table.lemma_is_cycle();
        }
        Oscillator { waveform, phase: 0, phase_increment: 0, sample_rate, lookup_table }
    }

    /// An oscillator for the waveform that `waveform_str` names.
    pub fn from_str(waveform_str: &str, sample_rate: u32, sine: &WaveformTable) -> (result: Result<
        Oscillator,
        ToneError,
    >)
        ensures
            match result {
                Ok(oscillator) => {
                    &&& named_waveform(lowercase_of(waveform_str@)) == Some(oscillator@.kind)
                    &&& oscillator@ == (OscillatorState {
                        kind: oscillator@.kind,
                        phase: 0,
                        increment: 0,
                        sample_rate,
                        table: table_for(oscillator@.kind, sine@),
                    })
                },
                Err(error) => {
                    &&& named_waveform(lowercase_of(waveform_str@)) is None
                    &&& error@ == ToneErrorView::Parse(unknown_waveform_text(waveform_str@))
                },
            },
    {
        match WaveformType::from_str(waveform_str) {
            Ok(waveform) => Ok(Oscillator::new(waveform, sample_rate, sine)),
            Err(error) => Err(error),
        }
    }

    /// Sets the frequency, in microhertz. Only the increment changes: the
    /// phase stays where it is.
    pub fn set_frequency(&mut self, frequency: u64)
        ensures
            final(self)@ == (OscillatorState {
                increment: phase_increment_for(
                    frequency as nat,
                    old(self)@.sample_rate as nat,
                ) as u32,
                ..old(self)@
            }),
    {
        self.phase_increment = phase_increment(frequency, self.sample_rate);
    }

    /// The next sample, with `noise` as the value to give if the waveform is
    /// noise.
    pub fn generate_with(&mut self, noise: i32) -> (value: i32)
        ensures
            value == next_sample(old(self)@, noise),
            final(self)@ == stepped(old(self)@),
            in_full_scale(noise as int) ==> in_full_scale(value as int),
    {
        let value = match self.waveform {
            WaveformType::WhiteNoise => noise,
            _ => self.lookup_table.sample_at(self.phase),
        };
        self.phase = advance(self.phase, self.phase_increment);
        value
    }

    /// The next sample. For noise it is drawn at random from full scale; for
    /// every other waveform it is read from the table.
    pub fn generate(&mut self) -> (value: i32)
        ensures
            !(old(self)@.kind is WhiteNoise) ==> value == interpolate(
                old(self)@.table,
                old(self)@.phase,
            ),
            in_full_scale(value as int),
            final(self)@ == stepped(old(self)@),
    {
        let noise = match self.waveform {
            WaveformType::WhiteNoise => random_in_range(-ONE, ONE),
            _ => 0,
        };
        self.generate_with(noise)
    }

    /// The phase accumulator.
    pub fn phase(&self) -> (phase: u32)
        ensures
            phase == self@.phase,
    {
        self.phase
    }

    /// What a sample adds to the phase.
    pub fn phase_increment(&self) -> (increment: u32)
        ensures
            increment == self@.increment,
    {
        self.phase_increment
    }

    /// Samples per second.
    pub fn sample_rate(&self) -> (sample_rate: u32)
        ensures
            sample_rate == self@.sample_rate,
    {
        self.sample_rate
    }

    /// The waveform.
    pub fn waveform(&self) -> (waveform: &WaveformType)
        ensures
            waveform@ == self@.kind,
    {
        &self.waveform
    }

    /// The lookup table.
    pub fn lookup_table(&self) -> (table: &WaveformTable)
        ensures
            table@ == self@.table,
    {
        &self.lookup_table
    }
}

} // verus!
