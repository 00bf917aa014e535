//! One cycle of a waveform as a table of 2^14 samples, read by phase with
//! linear interpolation between neighbouring entries.

use crate::phase::{
    following_index, fraction, lookup_fraction, lookup_index, next_index, table_index,
    FRACTION_SIZE, LOOKUP_SIZE,
};
use crate::units::{in_full_scale, ONE};
use vstd::prelude::*;

verus! {

/// Whether `samples` is one cycle: 2^14 entries, each within full scale.
pub open spec fn is_cycle(samples: Seq<i32>) -> bool {
    &&& samples.len() == 16384
    &&& forall|i: int| 0 <= i < 16384 ==> in_full_scale(#[trigger] samples[i] as int)
}

/// The point `frac / 2^18` of the way from `y0` to `y1`, rounded down.
pub open spec fn lerp(y0: int, y1: int, frac: int) -> int {
    y0 + (frac * (y1 - y0)) / 262144
}

/// The value of a cycle at a phase: the entry under the phase's 14 high bits,
/// moved toward the next entry by the 18 low bits.
pub open spec fn interpolate(samples: Seq<i32>, phase: u32) -> int {
    lerp(
        samples[table_index(phase)] as int,
        samples[next_index(table_index(phase))] as int,
        fraction(phase),
    )
}

/// An interpolated value lies between the two values it was taken from.
pub proof fn lemma_lerp_between(y0: int, y1: int, frac: int)
    requires
        0 <= frac < 262144,
    ensures
        y0 <= y1 ==> y0 <= lerp(y0, y1, frac) <= y1,
        y1 <= y0 ==> y1 <= lerp(y0, y1, frac) <= y0,
        frac == 0 ==> lerp(y0, y1, frac) == y0,
{
    let d: int = y1 - y0;
    let product: int = frac * d;
    if d >= 0 {
        assert(0 <= product <= 262144 * d) by (nonlinear_arith)
            requires
                product == frac * d,
                0 <= frac < 262144,
                d >= 0,
        ;
    } else {
        assert(262144 * d <= product <= 0) by (nonlinear_arith)
            requires
                product == frac * d,
                0 <= frac < 262144,
                d < 0,
        ;
    }
    assert(frac == 0 ==> product == 0) by (nonlinear_arith)
        requires
            product == frac * d,
    ;
}

/// Interpolation is continuous: at every phase the value read from a table
/// differs from the entry under the phase by no more than that entry differs
/// from the next, and lies between the two.
pub proof fn lemma_interpolation_between_neighbours(samples: Seq<i32>, phase: u32)
    requires
        samples.len() == 16384,
    ensures
        ({
            let here = samples[table_index(phase)] as int;
            let next = samples[next_index(table_index(phase))] as int;
            let value = interpolate(samples, phase);
            &&& (here <= value <= next || next <= value <= here)
            &&& vstd::math::abs(value - here) <= vstd::math::abs(next - here)
        }),
{
    lemma_lerp_between(
        samples[table_index(phase)] as int,
        samples[next_index(table_index(phase))] as int,
        fraction(phase),
    );
}

/// Linear interpolation between two samples by a fraction in 2^-18.
pub fn interpolate_between(y0: i32, y1: i32, frac: u32) -> (y: i32)
    requires
        frac < FRACTION_SIZE,
    ensures
        y == lerp(y0 as int, y1 as int, frac as int),
        y0 <= y1 ==> y0 <= y <= y1,
        y1 <= y0 ==> y1 <= y <= y0,
{
    proof {
        lemma_lerp_between(y0 as int, y1 as int, frac as int);
    }
    if y1 >= y0 {
        let rise: u64 = (y1 as i64 - y0 as i64) as u64;
        assert(frac as u64 * rise <= 262144 * rise) by (nonlinear_arith)
            requires
                frac < 262144,
        ;
        let product: u64 = frac as u64 * rise;
        assert(frac as int * (y1 as int - y0 as int) == product as int) by (nonlinear_arith)
            requires
                product as int == frac as int * rise as int,
                rise as int == y1 as int - y0 as int,
        ;
        (y0 as i64 + (product / 262144) as i64) as i32
    } else {
        let fall: u64 = (y0 as i64 - y1 as i64) as u64;
        assert(frac as u64 * fall <= 262144 * fall) by (nonlinear_arith)
            requires
                frac < 262144,
        ;
        let product: u64 = frac as u64 * fall;
        assert(frac as int * (y1 as int - y0 as int) == -(product as int)) by (nonlinear_arith)
            requires
                product as int == frac as int * fall as int,
                fall as int == y0 as int - y1 as int,
        ;
        (y0 as i64 - ((product + 262143) / 262144) as i64) as i32
    }
}

/// One cycle of a waveform, ready for lookup.
#[derive(Debug)]
pub struct WaveformTable {
    samples: Vec<i32>,
}

impl View for WaveformTable {
    type V = Seq<i32>;

    closed spec fn view(&self) -> Seq<i32> {
        self.samples@
    }
}

impl Clone for WaveformTable {
    fn clone(&self) -> (copy: WaveformTable)
        ensures
            copy@ == self@,
    {
        proof {
            use_type_invariant(self);
        }
        let mut samples: Vec<i32> = Vec::with_capacity(LOOKUP_SIZE);
        let mut i: usize = 0;
        while i < self.samples.len()
            invariant
                i <= self.samples.len(),
                samples@ == self.samples@.take(i as int),
            decreases self.samples.len() - i,
        {
            samples.push(self.samples[i]);
            i = i + 1;
        }
        WaveformTable { samples }
    }
}

impl WaveformTable {
    /// The invariant of the type: its entries are one cycle.
    #[verifier::type_invariant]
    pub closed spec fn well_formed(&self) -> bool {
        is_cycle(self.samples@)
    }

    /// What the invariant means for the view.
    pub proof fn lemma_is_cycle(&self)
        requires
            self.well_formed(),
        ensures
            is_cycle(self@),
    {
    }

    /// Takes `samples` as a table if they are one cycle, and not otherwise.
    pub fn from_samples(samples: Vec<i32>) -> (table: Option<WaveformTable>)
        ensures
            table is Some <==> is_cycle(samples@),
            table matches Some(t) ==> t@ == samples@,
    {
        if samples.len() != LOOKUP_SIZE {
            return None;
        }
        let mut i: usize = 0;
        while i < LOOKUP_SIZE
            invariant
                i <= LOOKUP_SIZE,
                samples.len() == LOOKUP_SIZE,
                forall|j: int| 0 <= j < i ==> in_full_scale(#[trigger] samples@[j] as int),
            decreases LOOKUP_SIZE - i,
        {
            if samples[i] < -ONE || samples[i] > ONE {
                return None;
            }
            i = i + 1;
        }
        Some(WaveformTable { samples })
    }

    /// A table from samples known to be one cycle.
    pub(crate) fn from_cycle(samples: Vec<i32>) -> (table: WaveformTable)
        requires
            is_cycle(samples@),
        ensures
            table@ == samples@,
    {
        WaveformTable { samples }
    }

    /// The entry at `index`.
    pub fn entry(&self, index: usize) -> (value: i32)
        requires
            index < LOOKUP_SIZE,
        ensures
            value == self@[index as int],
            in_full_scale(value as int),
    {
        proof {
            use_type_invariant(self);
        }
        self.samples[index]
    }

    /// The interpolated value of the cycle at `phase`.
    pub fn sample_at(&self, phase: u32) -> (value: i32)
        ensures
            is_cycle(self@),
            value == interpolate(self@, phase),
            in_full_scale(value as int),
            vstd::math::abs(value - self@[table_index(phase)]) <= vstd::math::abs(
                self@[next_index(table_index(phase))] - self@[table_index(phase)],
            ),
    {
        proof {
            use_type_invariant(self);
        }
        let index = lookup_index(phase);
        let frac = lookup_fraction(phase);
        let y0 = self.samples[index];
        let y1 = self.samples[following_index(index)];
        interpolate_between(y0, y1, frac)
    }

    /// The entries, in order.
    pub fn samples(&self) -> (all: &Vec<i32>)
        ensures
            all@ == self@,
            is_cycle(self@),
    {
        proof {
            use_type_invariant(self);
        }
        &self.samples
    }
}

} // verus!
