//! The signal renderer: sample by sample it evaluates the waveform at the
//! phase of the sample's time, multiplies by the envelope's gain at that time
//! and fills the stereo buffer of a whole tone.
//!
//! The phase of a sample is computed from its index alone, so that the same
//! parameters always give the same samples.

use crate::envelope::{envelope_level, shape_of, Envelope};
use crate::oscillator::random_in_range;
use crate::phase::{lemma_round_div_bounds, round_div};
use crate::text::lowercase_of;
use crate::tone::{ToneError, ToneErrorView, ToneParams};
use crate::units::{apply_gain, scaled, ONE};
use crate::waveform::{
    named_waveform, unknown_waveform_text, waveform_sample, WaveformKind, WaveformType,
};
use crate::wavetable::WaveformTable;
use vstd::arithmetic::div_mod::lemma_mod_multiples_vanish;
use vstd::prelude::*;

verus! {

/// The number of samples of a tone: its duration in microseconds times the
/// sample rate, rounded to a whole number.
pub open spec fn sample_count_for(duration: nat, sample_rate: nat) -> nat {
    round_div(duration * sample_rate, 1_000_000)
}

/// The time of sample `index` in microseconds, rounded down.
pub open spec fn sample_time(index: nat, sample_rate: nat) -> nat
    recommends
        sample_rate > 0,
{
    (index * 1_000_000) / sample_rate
}

/// The gain of sample `index` of the tone.
pub open spec fn gain_at(params: &ToneParams, sample_rate: u32, index: nat) -> int {
    envelope_level(shape_of(params), sample_time(index, sample_rate as nat), params.dur as nat)
}

/// The phase of sample `index` of the tone, in 2^-32 of a cycle: the
/// fractional part of the cycles that have passed at the sample's time,
/// `index * frequency / sample_rate`, rounded down.
pub open spec fn phase_at(params: &ToneParams, sample_rate: u32, index: nat) -> u32 {
    ((((index * params.freq as nat) % (sample_rate as nat * 1_000_000)) * 4294967296) / (
    sample_rate as nat * 1_000_000)) as u32
}

/// Whether `buffer` holds the tone `params` in the waveform `kind`.
///
/// It holds one pair of equal samples, left and right, for each sample of the
/// tone. The sample is the waveform's value at the sample's phase, multiplied
/// by the gain at the sample's time; for noise, where the value is drawn at
/// random, it is some value within the gain.
pub open spec fn is_rendering(
    params: &ToneParams,
    kind: WaveformKind,
    sample_rate: u32,
    sine: Seq<i32>,
    buffer: Seq<i32>,
) -> bool {
    &&& buffer.len() == 2 * sample_count_for(params.dur as nat, sample_rate as nat)
    &&& forall|i: int|
        0 <= i < sample_count_for(params.dur as nat, sample_rate as nat) ==> {
            &&& #[trigger] buffer[2 * i] == buffer[2 * i + 1]
            &&& if kind is WhiteNoise {
                -gain_at(params, sample_rate, i as nat) <= buffer[2 * i] <= gain_at(
                    params,
                    sample_rate,
                    i as nat,
                )
            } else {
                buffer[2 * i] == scaled(
                    waveform_sample(kind, sine, phase_at(params, sample_rate, i as nat)),
                    gain_at(params, sample_rate, i as nat),
                )
            }
        }
}

/// The error that stops a tone before any sample is made: the first rule of
/// validation that is broken, or else a waveform name that stands for
/// nothing; none if the tone can be rendered.
pub open spec fn audio_fault(params: &ToneParams) -> Option<ToneErrorView> {
    if params.first_fault() is Some {
        params.first_fault()
    } else if named_waveform(lowercase_of(params.waveform@)) is None {
        Some(ToneErrorView::Parse(unknown_waveform_text(params.waveform@)))
    } else {
        None
    }
}

/// Whether `result` is what generating the tone gives: the error that stops
/// it if there is one, and otherwise a buffer that holds the tone in the
/// waveform that its name stands for.
pub open spec fn is_audio(
    params: &ToneParams,
    sample_rate: u32,
    sine: Seq<i32>,
    result: Result<Vec<i32>, ToneError>,
) -> bool {
    match result {
        Ok(buffer) => {
            &&& audio_fault(params) is None
            &&& is_rendering(
                params,
                named_waveform(lowercase_of(params.waveform@))->Some_0,
                sample_rate,
                sine,
                buffer@,
            )
        },
        Err(error) => audio_fault(params) == Some(error@),
    }
}

/// The number of samples of a tone of `duration` microseconds.
pub fn sample_count(duration: u64, sample_rate: u32) -> (count: u128)
    ensures
        count == sample_count_for(duration as nat, sample_rate as nat),
{
    assert(duration as u128 * sample_rate as u128 <= 0xFFFF_FFFF_FFFF_FFFF * 0xFFFF_FFFF)
        by (nonlinear_arith)
        requires
            duration <= 0xFFFF_FFFF_FFFF_FFFF,
            sample_rate <= 0xFFFF_FFFF,
    ;
    let product: u128 = duration as u128 * sample_rate as u128;
    (2 * product + 1_000_000) / 2_000_000
}

/// Every sample of a tone is timed before the tone ends, and no tone has
/// samples at a rate of zero.
proof fn lemma_sample_in_time(index: nat, duration: nat, sample_rate: nat)
    requires
        index < sample_count_for(duration, sample_rate),
    ensures
        sample_rate > 0,
        sample_time(index, sample_rate) < duration,
{
    let product: int = (duration * sample_rate) as int;
    lemma_round_div_bounds(duration * sample_rate, 1_000_000);
    if sample_rate == 0 {
        assert(product == 0) by (nonlinear_arith)
            requires
                product == duration * sample_rate,
                sample_rate == 0,
        ;
    }
    assert((index * 1_000_000) / sample_rate < duration) by (nonlinear_arith)
        requires
            sample_rate > 0,
            product == duration * sample_rate,
            index * 1_000_000 < product,
    ;
}

/// The phase of sample `index` at `frequency` microhertz.
fn sample_phase(index: u128, frequency: u64, sample_rate: u32) -> (phase: u32)
    requires
        sample_rate > 0,
        index < 0x1_0000_0000_0000_0000_0000,
        frequency <= 0xFFFF_FFFF_FFFF,
    ensures
        phase == ((((index as nat * frequency as nat) % (sample_rate as nat * 1_000_000))
            * 4294967296) / (sample_rate as nat * 1_000_000)) as u32,
{
    let cycle: u128 = sample_rate as u128 * 1_000_000;
    assert(index * frequency <= 0x1_0000_0000_0000_0000_0000 * 0xFFFF_FFFF_FFFF)
        by (nonlinear_arith)
        requires
            index < 0x1_0000_0000_0000_0000_0000,
            frequency <= 0xFFFF_FFFF_FFFF,
    ;
    let turned: u128 = (index * frequency as u128) % cycle;
    assert((turned * 4294967296) / (cycle as int) < 4294967296) by (nonlinear_arith)
        requires
            0 <= turned < cycle,
    ;
    ((turned * 4294967296) / cycle) as u32
}

/// Renders a validated tone in the given waveform at `sample_rate` samples
/// per second, reading sines from `sine`.
pub fn render(
    params: &ToneParams,
    waveform: &WaveformType,
    sample_rate: u32,
    sine: &WaveformTable,
) -> (buffer: Vec<i32>)
    requires
        params.is_valid(),
    ensures
        is_rendering(params, waveform@, sample_rate, sine@, buffer@),
{
    let duration: u64 = params.dur as u64;
    let frequency: u64 = params.freq as u64;
    let count: u128 = sample_count(duration, sample_rate);
    let envelope = Envelope::new(params);
    let mut samples: Vec<i32> = Vec::new();
    let mut i: u128 = 0;
    proof {
        let product: nat = duration as nat * sample_rate as nat;
        assert(product <= 0x8000_0000_0000_0000 * 0x1_0000_0000) by (nonlinear_arith)
            requires
                product == duration as nat * sample_rate as nat,
                duration <= 0x8000_0000_0000_0000,
                sample_rate <= 0x1_0000_0000,
        ;
        lemma_round_div_bounds(product, 1_000_000);
    }
    while i < count
        invariant
            i <= count,
            count == sample_count_for(params.dur as nat, sample_rate as nat),
            count < 0x1_0000_0000_0000_0000_0000,
            duration == params.dur,
            frequency == params.freq,
            frequency <= 0xFFFF_FFFF_FFFF,
            envelope@ == shape_of(params),
            samples.len() == 2 * i,
            forall|j: int|
                0 <= j < i ==> {
                    &&& #[trigger] samples@[2 * j] == samples@[2 * j + 1]
                    &&& if waveform@ is WhiteNoise {
                        -gain_at(params, sample_rate, j as nat) <= samples@[2 * j] <= gain_at(
                            params,
                            sample_rate,
                            j as nat,
                        )
                    } else {
                        samples@[2 * j] == scaled(
                            waveform_sample(
                                waveform@,
                                sine@,
                                phase_at(params, sample_rate, j as nat),
                            ),
                            gain_at(params, sample_rate, j as nat),
                        )
                    }
                },
        decreases count - i,
    {
        proof {
            lemma_sample_in_time(i as nat, params.dur as nat, sample_rate as nat);
        }
        let time: u64 = ((i * 1_000_000) / sample_rate as u128) as u64;
        let raw = match waveform {
            WaveformType::WhiteNoise => random_in_range(-ONE, ONE),
            _ => waveform.generate_sample(sample_phase(i, frequency, sample_rate), sine),
        };
        let gain = envelope.get_amplitude(time, duration);
        let sample = apply_gain(raw, gain);
        proof {
            lemma_gain_bounds(raw as int, gain as int);
        }
        samples.push(sample);
        samples.push(sample);
        i = i + 1;
    }
    samples
}

/// A sample within full scale, multiplied by a gain, stays within the gain.
proof fn lemma_gain_bounds(sample: int, gain: int)
    requires
        -1_000_000 <= sample <= 1_000_000,
        0 <= gain,
    ensures
        -gain <= scaled(sample, gain) <= gain,
{
    if sample >= 0 {
        assert(0 <= (sample * gain) / 1_000_000 <= gain) by (nonlinear_arith)
            requires
                0 <= sample <= 1_000_000,
                0 <= gain,
        ;
        assert(sample * gain >= 0) by (nonlinear_arith)
            requires
                0 <= sample,
                0 <= gain,
        ;
    } else {
        assert(0 <= (-(sample * gain)) / 1_000_000 <= gain) by (nonlinear_arith)
            requires
                -1_000_000 <= sample < 0,
                0 <= gain,
        ;
        if sample * gain >= 0 {
            assert(sample * gain == 0) by (nonlinear_arith)
                requires
                    sample < 0,
                    0 <= gain,
                    sample * gain >= 0,
            ;
        }
    }
}

/// Validates a tone, reads its waveform and renders it: either the whole
/// buffer is made or nothing is.
pub fn generate_audio(params: &ToneParams, sample_rate: u32, sine: &WaveformTable) -> (result:
    Result<Vec<i32>, ToneError>)
    ensures
        is_audio(params, sample_rate, sine@, result),
{
    match params.validate() {
        Err(error) => Err(error),
        Ok(_) => match WaveformType::from_str(params.waveform.as_str()) {
            Err(error) => Err(error),
            Ok(waveform) => Ok(render(params, &waveform, sample_rate, sine)),
        },
    }
}

/// The phase wraps with the period of the tone: samples that lie a whole
/// number of cycles apart have the same phase.
pub proof fn lemma_phase_repeats_each_period(
    params: &ToneParams,
    sample_rate: u32,
    index: nat,
    apart: nat,
    cycles: nat,
)
    requires
        sample_rate > 0,
        apart * params.freq as nat == cycles * (sample_rate as nat * 1_000_000),
    ensures
        phase_at(params, sample_rate, index + apart) == phase_at(params, sample_rate, index),
{
    let f: int = params.freq as nat as int;
    let r: int = sample_rate as int * 1_000_000;
    assert((index + apart) * f == r * cycles + index * f) by (nonlinear_arith)
        requires
            apart * f == cycles * r,
    ;
    lemma_mod_multiples_vanish(cycles as int, index * f, r);
}

/// Rendering is repeatable: for every waveform but noise, two buffers that
/// hold the same tone are equal, sample for sample.
pub proof fn lemma_rendering_is_unique(
    params: &ToneParams,
    kind: WaveformKind,
    sample_rate: u32,
    sine: Seq<i32>,
    first: Seq<i32>,
    second: Seq<i32>,
)
    requires
        !(kind is WhiteNoise),
        is_rendering(params, kind, sample_rate, sine, first),
        is_rendering(params, kind, sample_rate, sine, second),
    ensures
        first == second,
{
    assert forall|k: int| 0 <= k < first.len() implies first[k] == second[k] by {
        let i = k / 2;
        assert(first[2 * i] == first[2 * i + 1]);
        assert(second[2 * i] == second[2 * i + 1]);
    }
}

/// Generating is idempotent: whatever the parameters, two results for the
/// same tone are both errors, and then the same error, or both buffers, and
/// then, unless the waveform is noise, the same buffer sample for sample.
pub proof fn lemma_generating_is_idempotent(
    params: &ToneParams,
    sample_rate: u32,
    sine: Seq<i32>,
    first: Result<Vec<i32>, ToneError>,
    second: Result<Vec<i32>, ToneError>,
)
    requires
        is_audio(params, sample_rate, sine, first),
        is_audio(params, sample_rate, sine, second),
    ensures
        match (first, second) {
            (Ok(a), Ok(b)) => named_waveform(lowercase_of(params.waveform@)) != Some(
                WaveformKind::WhiteNoise,
            ) ==> a@ == b@,
            (Err(a), Err(b)) => a@ == b@,
            _ => false,
        },
{
    match (first, second) {
        (Ok(a), Ok(b)) => {
            let kind = named_waveform(lowercase_of(params.waveform@))->Some_0;
            if !(kind is WhiteNoise) {
                lemma_rendering_is_unique(params, kind, sample_rate, sine, a@, b@);
            }
        },
        _ => {},
    }
}

} // verus!
