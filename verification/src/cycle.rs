//! A sine oscillator fixed at concert pitch, 440 Hz at 48 000 samples per
//! second, that fills whole blocks of samples at a time.

use crate::phase::{
    advance, lemma_phase_steps_compose, phase_after, phase_increment, phase_increment_for,
};
use crate::wavetable::{interpolate, WaveformTable};
use vstd::prelude::*;

verus! {

/// The frequency of the oscillator, in microhertz.
pub const CYCLE_FREQUENCY: u64 = 440_000_000;

/// The sample rate of the oscillator, in hertz.
pub const CYCLE_SAMPLE_RATE: u32 = 48_000;

/// A sine oscillator at 440 Hz.
#[derive(Debug)]
pub struct Cycle {
    increment: u32,
    buffer: WaveformTable,
    phasei: u32,
}

/// What a `Cycle` is at one moment.
pub struct CycleState {
    /// What a sample adds to the phase.
    pub increment: u32,
    /// The table of the sine.
    pub table: Seq<i32>,
    /// The phase accumulator.
    pub phase: u32,
}

impl View for Cycle {
    type V = CycleState;

    closed spec fn view(&self) -> CycleState {
        CycleState { increment: self.increment, table: self.buffer@, phase: self.phasei }
    }
}

impl Cycle {
    /// An oscillator at phase 0 over the given cycle of a sine.
    pub fn new(sine: WaveformTable) -> (cycle: Cycle)
        ensures
            cycle@ == (CycleState {
                increment: phase_increment_for(440_000_000, 48_000) as u32,
                table: sine@,
                phase: 0,
            }),
    {
        Cycle {
            increment: phase_increment(CYCLE_FREQUENCY, CYCLE_SAMPLE_RATE),
            buffer: sine,
            phasei: 0,
        }
    }

    /// Writes the next `n` samples to the front of `signal_out` and the phase
    /// of each to the front of `phase_out`, and leaves the rest of both as it
    /// was.
    pub fn perform(&mut self, signal_out: &mut Vec<i32>, phase_out: &mut Vec<u32>, n: usize)
        requires
            n <= old(signal_out).len(),
            n <= old(phase_out).len(),
        ensures
            final(self)@ == (CycleState {
                phase: phase_after(old(self)@.phase, old(self)@.increment, n as nat),
                ..old(self)@
            }),
            final(signal_out).len() == old(signal_out).len(),
            final(phase_out).len() == old(phase_out).len(),
            forall|i: int|
                0 <= i < n ==> #[trigger] final(phase_out)@[i] == phase_after(
                    old(self)@.phase,
                    old(self)@.increment,
                    i as nat,
                ),
            forall|i: int|
                0 <= i < n ==> #[trigger] final(signal_out)@[i] == interpolate(
                    old(self)@.table,
                    phase_after(old(self)@.phase, old(self)@.increment, i as nat),
                ),
            forall|i: int|
                n <= i < old(signal_out).len() ==> final(signal_out)@[i] == old(signal_out)@[i],
            forall|i: int|
                n <= i < old(phase_out).len() ==> final(phase_out)@[i] == old(phase_out)@[i],
    {
        let ghost start = self.phasei;
        let ghost increment = self.increment;
        let ghost table = self.buffer@;
        let mut i: usize = 0;
        proof {
            lemma_phase_steps_compose(start, increment, 0, 0);
        }
        while i < n
            invariant
                i <= n,
                n <= signal_out.len(),
                n <= phase_out.len(),
                signal_out.len() == old(signal_out).len(),
                phase_out.len() == old(phase_out).len(),
                self.increment == increment,
                self.buffer@ == table,
                self.phasei == phase_after(start, increment, i as nat),
                forall|j: int|
                    0 <= j < i ==> #[trigger] phase_out@[j] == phase_after(
                        start,
                        increment,
                        j as nat,
                    ),
                forall|j: int|
                    0 <= j < i ==> #[trigger] signal_out@[j] == interpolate(
                        table,
                        phase_after(start, increment, j as nat),
                    ),
                forall|j: int|
                    i <= j < signal_out.len() ==> signal_out@[j] == old(signal_out)@[j],
                forall|j: int| i <= j < phase_out.len() ==> phase_out@[j] == old(phase_out)@[j],
            decreases n - i,
        {
            let uint_phase = self.phasei;
            let y = self.buffer.sample_at(uint_phase);
            proof {
                lemma_phase_steps_compose(start, increment, i as nat, 1);
            }
            self.phasei = advance(self.phasei, self.increment);
            signal_out.set(i, y);
            phase_out.set(i, uint_phase);
            i = i + 1;
        }
    }

    /// The phase accumulator.
    pub fn phase(&self) -> (phase: u32)
        ensures
            phase == self@.phase,
    {
        self.phasei
    }

    /// What a sample adds to the phase.
    pub fn increment(&self) -> (increment: u32)
        ensures
            increment == self@.increment,
    {
        self.increment
    }
}

} // verus!
