//! The fixed-point phase: a 32-bit counter over one cycle, its split into a
//! table index and an interpolation fraction, and the increment that makes it
//! turn at a given frequency.

use vstd::arithmetic::div_mod::{lemma_fundamental_div_mod, lemma_mod_multiples_vanish};
use vstd::prelude::*;

verus! {

/// Number of entries of a lookup table: 2^14.
pub const LOOKUP_SIZE: usize = 16384;

/// Mask that wraps a table index.
pub const LOOKUP_MASK: usize = 16383;

/// Number of values of the interpolation fraction: 2^18.
pub const FRACTION_SIZE: u32 = 262144;

/// Mask that keeps the interpolation fraction of a phase.
pub const FRACTION_MASK: u32 = 0x3FFFF;

/// The table entry that a phase falls on: its 14 high bits.
pub open spec fn table_index(phase: u32) -> int {
    phase as int / 262144
}

/// How far a phase lies beyond its table entry, in 2^-18 of the distance to
/// the next one: its 18 low bits.
pub open spec fn fraction(phase: u32) -> int {
    phase as int % 262144
}

/// The entry after `index`, the last one being followed by the first.
pub open spec fn next_index(index: int) -> int {
    (index + 1) % 16384
}

/// The phase reached from `start` after `steps` additions of `increment`:
/// a linear function of the step count, modulo one cycle.
pub open spec fn phase_after(start: u32, increment: u32, steps: nat) -> u32 {
    ((start as int + steps as int * increment as int) % 4294967296) as u32
}

/// `n / d` rounded to the nearest integer, halves upwards.
pub open spec fn round_div(n: nat, d: nat) -> nat
    recommends
        d > 0,
{
    (2 * n + d) / (2 * d)
}

/// The increment for `frequency` microhertz at `sample_rate` hertz:
/// `frequency * 2^32 / sample_rate` cycles per sample, rounded and held to 32
/// bits. At a rate of zero every frequency but zero saturates.
pub open spec fn phase_increment_for(frequency: nat, sample_rate: nat) -> nat {
    if sample_rate == 0 {
        if frequency == 0 {
            0
        } else {
            0xFFFF_FFFF
        }
    } else {
        let exact = round_div(frequency * 4294967296, sample_rate * 1_000_000);
        if exact > 0xFFFF_FFFF {
            0xFFFF_FFFF
        } else {
            exact
        }
    }
}

/// The number of samples in one period, rounded: `sample_rate / frequency`.
pub open spec fn period_samples(frequency: nat, sample_rate: nat) -> nat
    recommends
        frequency > 0,
{
    round_div(sample_rate * 1_000_000, frequency)
}

/// Distance between two phases along the shorter way round the cycle.
pub open spec fn cyclic_distance(a: u32, b: u32) -> int {
    let forward = (b as int - a as int) % 4294967296;
    if forward <= 4294967296 - forward {
        forward
    } else {
        4294967296 - forward
    }
}

/// The table index of a phase, by a shift.
pub fn lookup_index(phase: u32) -> (index: usize)
    ensures
        index == table_index(phase),
        index < LOOKUP_SIZE,
{
    let high: u32 = phase >> 18;
    assert(high == phase / 262144 && high < 16384) by (bit_vector)
        requires
            high == phase >> 18,
    ;
    high as usize
}

/// The interpolation fraction of a phase, by a mask.
pub fn lookup_fraction(phase: u32) -> (frac: u32)
    ensures
        frac == fraction(phase),
        frac < FRACTION_SIZE,
{
    let low: u32 = phase & FRACTION_MASK;
    assert(low == phase % 262144) by (bit_vector)
        requires
            low == phase & 0x3FFFF,
    ;
    low
}

/// The index after `index`, wrapped by a mask.
pub fn following_index(index: usize) -> (next: usize)
    requires
        index < LOOKUP_SIZE,
    ensures
        next == next_index(index as int),
        next < LOOKUP_SIZE,
{
    let bumped: usize = index + 1;
    let wrapped: usize = bumped & LOOKUP_MASK;
    assert(wrapped == bumped % 16384) by (bit_vector)
        requires
            wrapped == bumped & 16383,
    ;
    wrapped
}

/// One step of the accumulator: a wrapping addition.
pub fn advance(phase: u32, increment: u32) -> (next: u32)
    ensures
        next == phase_after(phase, increment, 1),
{
    phase.wrapping_add(increment)
}

/// The phase increment for `frequency` microhertz at `sample_rate` hertz.
pub fn phase_increment(frequency: u64, sample_rate: u32) -> (increment: u32)
    ensures
        increment == phase_increment_for(frequency as nat, sample_rate as nat),
{
    if sample_rate == 0 {
        if frequency == 0 {
            0
        } else {
            u32::MAX
        }
    } else {
        let den: u128 = sample_rate as u128 * 1_000_000;
        let num: u128 = frequency as u128 * 4294967296;
        let exact: u128 = (2 * num + den) / (2 * den);
        if exact > 0xFFFF_FFFF {
            u32::MAX
        } else {
            exact as u32
        }
    }
}

/// Stepping is additive: `b` steps after `a` steps are `a + b` steps, so the
/// accumulator is a linear function of the sample index modulo one cycle.
pub proof fn lemma_phase_steps_compose(start: u32, increment: u32, a: nat, b: nat)
    ensures
        phase_after(start, increment, 0) == start,
        phase_after(phase_after(start, increment, a), increment, b) == phase_after(
            start,
            increment,
            a + b,
        ),
{
    let p: int = 4294967296;
    let x: int = start as int + a as int * increment as int;
    let y: int = b as int * increment as int;
    lemma_fundamental_div_mod(x, p);
    lemma_mod_multiples_vanish(-(x / p), x + y, p);
    assert(p * (-(x / p)) + (x + y) == x % p + y) by (nonlinear_arith)
        requires
            x == p * (x / p) + x % p,
    ;
    assert((a + b) as int * increment as int == x - start as int + y) by (nonlinear_arith)
        requires
            x == start as int + a as int * increment as int,
            y == b as int * increment as int,
    ;
}

/// What dividing with rounding means: twice the error is at most the divisor.
pub proof fn lemma_round_div_bounds(n: nat, d: nat)
    requires
        d > 0,
    ensures
        2 * d * round_div(n, d) <= 2 * n + d < 2 * d * round_div(n, d) + 2 * d,
{
    let x: int = (2 * n + d) as int;
    let m: int = (2 * d) as int;
    lemma_fundamental_div_mod(x, m);
}

/// Cycle closure: after one period's worth of samples the accumulator is back
/// within one increment of where it began. It holds whenever a period is at
/// most 65536 samples long, which covers every frequency from 20 Hz up at any
/// sample rate up to 1 310 720 Hz.
pub proof fn lemma_cycle_closure(frequency: nat, sample_rate: nat, start: u32)
    requires
        frequency > 0,
        sample_rate > 0,
        sample_rate * 1_000_000 <= 65536 * frequency,
    ensures
        phase_increment_for(frequency, sample_rate) <= u32::MAX,
        cyclic_distance(
            start,
            phase_after(
                start,
                phase_increment_for(frequency, sample_rate) as u32,
                period_samples(frequency, sample_rate),
            ),
        ) <= phase_increment_for(frequency, sample_rate),
{
    let p: int = 4294967296;
    let f: int = frequency as int;
    let r: int = sample_rate as int * 1_000_000;
    let exact: int = round_div(frequency * 4294967296, sample_rate * 1_000_000) as int;
    let inc: int = phase_increment_for(frequency, sample_rate) as int;
    let n: int = period_samples(frequency, sample_rate) as int;
    lemma_round_div_bounds(frequency * 4294967296, sample_rate * 1_000_000);
    lemma_round_div_bounds(sample_rate * 1_000_000, frequency);
    let travelled: int = n * inc;
    if exact <= 0xFFFF_FFFF {
        // Nothing is cut off. With a = 2(fp - r*inc) and b = 2(r - f*n), the two
        // rounding errors, 2f(p - n*inc) = a + inc*b, and |a| <= r <= inc*f.
        assert(exact >= 65536) by (nonlinear_arith)
            requires
                r > 0,
                r <= 65536 * f,
                p == 4294967296,
                2 * (f * p) + r < 2 * r * exact + 2 * r,
        ;
        assert(p - inc <= travelled <= p + inc) by (nonlinear_arith)
            requires
                travelled == n * inc,
                f > 0,
                r > 0,
                inc >= 65536,
                r <= 65536 * f,
                2 * r * inc <= 2 * (f * p) + r < 2 * r * inc + 2 * r,
                2 * f * n <= 2 * r + f < 2 * f * n + 2 * f,
        ;
    } else {
        // The increment is cut off at 2^32 - 1: the period is at most one sample.
        assert(n <= 1) by (nonlinear_arith)
            requires
                f > 0,
                r > 0,
                exact >= p,
                p == 4294967296,
                2 * r * exact <= 2 * (f * p) + r,
                2 * f * n <= 2 * r + f,
        ;
        assert(travelled == 0 || travelled == p - 1) by (nonlinear_arith)
            requires
                travelled == n * inc,
                0 <= n <= 1,
                inc == p - 1,
        ;
    }
    // The way from the start to the end is the distance travelled, modulo 2^32.
    let x: int = start as int + travelled;
    lemma_fundamental_div_mod(x, p);
    lemma_mod_multiples_vanish(-(x / p), travelled, p);
    assert(p * (-(x / p)) + travelled == x % p - start as int) by (nonlinear_arith)
        requires
            x == p * (x / p) + x % p,
            x == start as int + travelled,
    ;
    if travelled >= p {
        lemma_mod_multiples_vanish(1, travelled - p, p);
    }
}

} // verus!
