//! The waveform kinds, what each is worth at a phase, and the table of one
//! cycle that an oscillator reads.

use crate::phase::LOOKUP_SIZE;
use crate::text::{lowercase_of, reads, to_lowercase};
use crate::tone::{ToneError, ToneErrorView};
use crate::units::{div_toward_zero, in_full_scale, ONE};
use crate::wavetable::{interpolate, is_cycle, lemma_lerp_between, WaveformTable};
use vstd::prelude::*;

verus! {

/// The sum of the amplitudes of a list of (harmonic number, amplitude) pairs.
pub open spec fn total_amplitude(harmonics: Seq<(u32, u32)>) -> nat
    decreases harmonics.len(),
{
    if harmonics.len() == 0 {
        0
    } else {
        total_amplitude(harmonics.drop_last()) + harmonics.last().1 as nat
    }
}

/// The phase of the harmonic `number` when the fundamental is at `phase`:
/// `number` times as far, modulo one cycle.
pub open spec fn harmonic_phase(phase: u32, number: u32) -> u32 {
    ((phase as nat * number as nat) % 4294967296) as u32
}

/// The sum over all pairs of amplitude times the sine at the harmonic's phase.
pub open spec fn weighted_sum(harmonics: Seq<(u32, u32)>, sine: Seq<i32>, phase: u32) -> int
    decreases harmonics.len(),
{
    if harmonics.len() == 0 {
        0
    } else {
        weighted_sum(harmonics.drop_last(), sine, phase) + harmonics.last().1 as int
            * interpolate(sine, harmonic_phase(phase, harmonics.last().0))
    }
}

/// The harmonics of the default mix: the fundamental and its second, third,
/// fifth and seventh harmonic, with falling amplitudes in millionths.
pub open spec fn default_harmonics() -> Seq<(u32, u32)> {
    seq![
        (1u32, 1_000_000u32),
        (2u32, 500_000u32),
        (3u32, 330_000u32),
        (5u32, 200_000u32),
        (7u32, 140_000u32),
    ]
}

/// A mix of harmonics: (harmonic number, amplitude in millionths) pairs whose
/// amplitudes do not all vanish.
#[derive(Debug)]
pub struct HarmonicParams {
    harmonics: Vec<(u32, u32)>,
}

impl View for HarmonicParams {
    type V = Seq<(u32, u32)>;

    closed spec fn view(&self) -> Seq<(u32, u32)> {
        self.harmonics@
    }
}

impl HarmonicParams {
    #[verifier::type_invariant]
    spec fn well_formed(&self) -> bool {
        total_amplitude(self.harmonics@) > 0
    }

    /// Takes the pairs as a mix if some amplitude is not zero.
    pub fn new(harmonics: Vec<(u32, u32)>) -> (mix: Option<HarmonicParams>)
        ensures
            mix is Some <==> total_amplitude(harmonics@) > 0,
            mix matches Some(m) ==> m@ == harmonics@,
    {
        let mut total: u128 = 0;
        let mut i: usize = 0;
        while i < harmonics.len()
            invariant
                i <= harmonics.len(),
                total == total_amplitude(harmonics@.take(i as int)),
                total <= i * 0xFFFF_FFFF,
            decreases harmonics.len() - i,
        {
            assert(harmonics@.take(i + 1).drop_last() =~= harmonics@.take(i as int));
            total = total + harmonics[i].1 as u128;
            i = i + 1;
        }
        assert(harmonics@.take(i as int) =~= harmonics@);
        if total > 0 {
            Some(HarmonicParams { harmonics })
        } else {
            None
        }
    }

    /// The pairs, in order.
    pub fn harmonics(&self) -> (pairs: &Vec<(u32, u32)>)
        ensures
            pairs@ == self@,
            total_amplitude(self@) > 0,
    {
        proof {
            use_type_invariant(self);
        }
        &self.harmonics
    }
}

impl Clone for HarmonicParams {
    fn clone(&self) -> (copy: HarmonicParams)
        ensures
            copy@ == self@,
    {
        proof {
            use_type_invariant(self);
        }
        let mut harmonics: Vec<(u32, u32)> = Vec::new();
        let mut i: usize = 0;
        while i < self.harmonics.len()
            invariant
                i <= self.harmonics.len(),
                harmonics@ == self.harmonics@.take(i as int),
            decreases self.harmonics.len() - i,
        {
            harmonics.push(self.harmonics[i]);
            i = i + 1;
        }
        assert(harmonics@ =~= self.harmonics@);
        HarmonicParams { harmonics }
    }
}

impl Default for HarmonicParams {
    fn default() -> (mix: HarmonicParams)
        ensures
            mix@ == default_harmonics(),
    {
        let mut harmonics: Vec<(u32, u32)> = Vec::new();
        harmonics.push((1, 1_000_000));
        harmonics.push((2, 500_000));
        harmonics.push((3, 330_000));
        harmonics.push((5, 200_000));
        harmonics.push((7, 140_000));
        assert(total_amplitude(harmonics@) > 0) by {
        }
        HarmonicParams { harmonics }
    }
}

/// The shape of one cycle.
#[derive(Debug)]
pub enum WaveformType {
    Sine,
    Square,
    Triangle,
    Saw,
    Pulse,
    WhiteNoise,
    Harmonic(HarmonicParams),
}

/// A waveform kind with its harmonics as a sequence.
pub enum WaveformKind {
    Sine,
    Square,
    Triangle,
    Saw,
    Pulse,
    WhiteNoise,
    Harmonic(Seq<(u32, u32)>),
}

impl Clone for WaveformType {
    fn clone(&self) -> (copy: WaveformType)
        ensures
            copy@ == self@,
    {
        match self {
            WaveformType::Sine => WaveformType::Sine,
            WaveformType::Square => WaveformType::Square,
            WaveformType::Triangle => WaveformType::Triangle,
            WaveformType::Saw => WaveformType::Saw,
            WaveformType::Pulse => WaveformType::Pulse,
            WaveformType::WhiteNoise => WaveformType::WhiteNoise,
            WaveformType::Harmonic(mix) => WaveformType::Harmonic(mix.clone()),
        }
    }
}

impl View for WaveformType {
    type V = WaveformKind;

    open spec fn view(&self) -> WaveformKind {
        match self {
            WaveformType::Sine => WaveformKind::Sine,
            WaveformType::Square => WaveformKind::Square,
            WaveformType::Triangle => WaveformKind::Triangle,
            WaveformType::Saw => WaveformKind::Saw,
            WaveformType::Pulse => WaveformKind::Pulse,
            WaveformType::WhiteNoise => WaveformKind::WhiteNoise,
            WaveformType::Harmonic(mix) => WaveformKind::Harmonic(mix@),
        }
    }
}

/// The value of a waveform at a phase, the phase counted in 2^-32 of a cycle
/// and the value in millionths of full scale.
///
/// A square is +1 in the first half of the cycle and -1 in the second; a
/// triangle rises as `4p - 1` in the first half and falls as `3 - 4p` in the
/// second; a saw rises as `2p - 1`; a pulse is +1 for the first tenth and -1
/// after it; a harmonic mix is the amplitude-weighted sum of the sine at each
/// harmonic's phase, divided by the sum of the amplitudes. A sine is read from
/// the cycle `sine`. Noise has no value of its own and counts as 0.
pub open spec fn waveform_sample(kind: WaveformKind, sine: Seq<i32>, phase: u32) -> int {
    match kind {
        WaveformKind::Sine => interpolate(sine, phase),
        WaveformKind::Square => if phase < 0x8000_0000 {
            1_000_000
        } else {
            -1_000_000
        },
        WaveformKind::Triangle => if phase < 0x8000_0000 {
            (phase as int * 1_000_000) / 0x4000_0000 - 1_000_000
        } else {
            3_000_000 - (phase as int * 1_000_000) / 0x4000_0000
        },
        WaveformKind::Saw => (phase as int * 1_000_000) / 0x8000_0000 - 1_000_000,
        WaveformKind::Pulse => if 10 * phase < 0x1_0000_0000 {
            1_000_000
        } else {
            -1_000_000
        },
        WaveformKind::WhiteNoise => 0,
        WaveformKind::Harmonic(harmonics) => div_toward_zero(
            weighted_sum(harmonics, sine, phase),
            total_amplitude(harmonics) as int,
        ),
    }
}

/// The table of a waveform: its value at each of the 2^14 phases `i / 2^14`.
pub open spec fn table_for(kind: WaveformKind, sine: Seq<i32>) -> Seq<i32> {
    Seq::new(16384, |i: int| waveform_sample(kind, sine, (i * 262144) as u32) as i32)
}

/// The waveform that a lower-case name stands for, if any.
pub open spec fn named_waveform(lower: Seq<char>) -> Option<WaveformKind> {
    if lower == "sin"@ || lower == "sine"@ {
        Some(WaveformKind::Sine)
    } else if lower == "square"@ {
        Some(WaveformKind::Square)
    } else if lower == "triangle"@ {
        Some(WaveformKind::Triangle)
    } else if lower == "saw"@ {
        Some(WaveformKind::Saw)
    } else if lower == "pulse"@ {
        Some(WaveformKind::Pulse)
    } else if lower == "noise"@ || lower == "whitenoise"@ {
        Some(WaveformKind::WhiteNoise)
    } else if lower == "harmonic"@ {
        Some(WaveformKind::Harmonic(default_harmonics()))
    } else {
        None
    }
}

/// The text of the error for a name that stands for no waveform.
pub open spec fn unknown_waveform_text(given: Seq<char>) -> Seq<char> {
    "Unknown waveform: "@ + given
}

impl WaveformType {
    /// The value of this waveform at `phase`, a sine being read from `sine`.
    pub fn generate_sample(&self, phase: u32, sine: &WaveformTable) -> (value: i32)
        ensures
            value == waveform_sample(self@, sine@, phase),
            in_full_scale(value as int),
    {
        match self {
            WaveformType::Sine => sine.sample_at(phase),
            WaveformType::Square => {
                if phase < 0x8000_0000 {
                    ONE
                } else {
                    -ONE
                }
            },
            WaveformType::Triangle => {
                let ramp: u64 = (phase as u64 * 1_000_000) / 0x4000_0000;
                if phase < 0x8000_0000 {
                    ramp as i32 - ONE
                } else {
                    3 * ONE - ramp as i32
                }
            },
            WaveformType::Saw => {
                let ramp: u64 = (phase as u64 * 1_000_000) / 0x8000_0000;
                ramp as i32 - ONE
            },
            WaveformType::Pulse => {
                if phase as u64 * 10 < 0x1_0000_0000 {
                    ONE
                } else {
                    -ONE
                }
            },
            WaveformType::WhiteNoise => 0,
            WaveformType::Harmonic(mix) => {
                proof {
                    use_type_invariant(mix);
                    use_type_invariant(sine);
                    sine.lemma_is_cycle();
                }
                let pairs = &mix.harmonics;
                let mut sum: i128 = 0;
                let mut normalize: u128 = 0;
                let mut i: usize = 0;
                while i < pairs.len()
                    invariant
                        i <= pairs.len(),
                        sum == weighted_sum(pairs@.take(i as int), sine@, phase),
                        normalize == total_amplitude(pairs@.take(i as int)),
                        normalize <= i * 0xFFFF_FFFF,
                        is_cycle(sine@),
                    decreases pairs.len() - i,
                {
                    let number: u32 = pairs[i].0;
                    let amplitude: u32 = pairs[i].1;
                    let value: i32 = sine.sample_at(phase.wrapping_mul(number));
                    proof {
                        assert(pairs@.take(i + 1).drop_last() =~= pairs@.take(i as int));
                        lemma_weighted_sum_bounded(pairs@.take(i as int), sine@, phase);
                        assert(-1_000_000 * amplitude <= amplitude * value <= 1_000_000
                            * amplitude) by (nonlinear_arith)
                            requires
                                -1_000_000 <= value <= 1_000_000,
                        ;
                    }
                    sum = sum + amplitude as i128 * value as i128;
                    normalize = normalize + amplitude as u128;
                    i = i + 1;
                }
                proof {
                    assert(pairs@.take(i as int) =~= pairs@);
                    lemma_weighted_sum_bounded(pairs@, sine@, phase);
                    lemma_quotient_bounded(sum as int, normalize as int, 1_000_000);
                }
                if sum >= 0 {
                    (sum as u128 / normalize) as i32
                } else {
                    -(((-sum) as u128 / normalize) as i32)
                }
            },
        }
    }

    /// Builds the lookup table of this waveform.
    pub fn build_table(&self, sine: &WaveformTable) -> (table: WaveformTable)
        ensures
            table@ == table_for(self@, sine@),
    {
        let mut samples: Vec<i32> = Vec::with_capacity(LOOKUP_SIZE);
        let mut i: usize = 0;
        while i < LOOKUP_SIZE
            invariant
                i <= LOOKUP_SIZE,
                samples.len() == i,
                forall|j: int|
                    0 <= j < i ==> #[trigger] samples@[j] == waveform_sample(
                        self@,
                        sine@,
                        (j * 262144) as u32,
                    ),
                forall|j: int| 0 <= j < i ==> in_full_scale(#[trigger] samples@[j] as int),
            decreases LOOKUP_SIZE - i,
        {
            let phase: u32 = i as u32 * 262144;
            let value = self.generate_sample(phase, sine);
            samples.push(value);
            i = i + 1;
        }
        WaveformTable::from_cycle(samples)
    }

    /// The waveform that a name already in lower case stands for. `given` is
    /// the name as it was written, for the error text.
    pub fn from_lowercase(lower: &String, given: &str) -> (result: Result<WaveformType, ToneError>)
        ensures
            match result {
                Ok(waveform) => named_waveform(lower@) == Some(waveform@),
                Err(error) => named_waveform(lower@) is None && error@ == ToneErrorView::Parse(
                    unknown_waveform_text(given@),
                ),
            },
    {
        if reads(lower, "sin") || reads(lower, "sine") {
            Ok(WaveformType::Sine)
        } else if reads(lower, "square") {
            Ok(WaveformType::Square)
        } else if reads(lower, "triangle") {
            Ok(WaveformType::Triangle)
        } else if reads(lower, "saw") {
            Ok(WaveformType::Saw)
        } else if reads(lower, "pulse") {
            Ok(WaveformType::Pulse)
        } else if reads(lower, "noise") || reads(lower, "whitenoise") {
            Ok(WaveformType::WhiteNoise)
        } else if reads(lower, "harmonic") {
            Ok(WaveformType::Harmonic(HarmonicParams::default()))
        } else {
            let mut text = String::from_str("Unknown waveform: ");
            text.append(given);
            Err(ToneError::Parse(text))
        }
    }

    /// The waveform that a name stands for, in whatever case it is written.
    pub fn from_str(s: &str) -> (result: Result<WaveformType, ToneError>)
        ensures
            match result {
                Ok(waveform) => named_waveform(lowercase_of(s@)) == Some(waveform@),
                Err(error) => named_waveform(lowercase_of(s@)) is None && error@
                    == ToneErrorView::Parse(unknown_waveform_text(s@)),
            },
    {
        let lower = to_lowercase(s);
        WaveformType::from_lowercase(&lower, s)
    }
}

/// The weighted sum of a mix stays within the sum of its amplitudes.
proof fn lemma_weighted_sum_bounded(harmonics: Seq<(u32, u32)>, sine: Seq<i32>, phase: u32)
    requires
        is_cycle(sine),
    ensures
        -1_000_000 * total_amplitude(harmonics) <= weighted_sum(harmonics, sine, phase)
            <= 1_000_000 * total_amplitude(harmonics),
    decreases harmonics.len(),
{
    if harmonics.len() > 0 {
        lemma_weighted_sum_bounded(harmonics.drop_last(), sine, phase);
        let amplitude: int = harmonics.last().1 as int;
        let value: int = interpolate(sine, harmonic_phase(phase, harmonics.last().0));
        lemma_interpolate_in_full_scale(sine, harmonic_phase(phase, harmonics.last().0));
        assert(-1_000_000 * amplitude <= amplitude * value <= 1_000_000 * amplitude)
            by (nonlinear_arith)
            requires
                amplitude >= 0,
                -1_000_000 <= value <= 1_000_000,
        ;
    }
}

/// A value read from a cycle lies within full scale.
pub proof fn lemma_interpolate_in_full_scale(sine: Seq<i32>, phase: u32)
    requires
        is_cycle(sine),
    ensures
        in_full_scale(interpolate(sine, phase)),
{
    let here = crate::phase::table_index(phase);
    let next = crate::phase::next_index(here);
    lemma_lerp_between(sine[here] as int, sine[next] as int, crate::phase::fraction(phase));
}

/// Every waveform stays within full scale at every phase.
pub proof fn lemma_waveform_in_full_scale(kind: WaveformKind, sine: Seq<i32>, phase: u32)
    requires
        is_cycle(sine),
        kind matches WaveformKind::Harmonic(harmonics) ==> total_amplitude(harmonics) > 0,
    ensures
        in_full_scale(waveform_sample(kind, sine, phase)),
{
    match kind {
        WaveformKind::Sine => {
            lemma_interpolate_in_full_scale(sine, phase);
        },
        WaveformKind::Harmonic(harmonics) => {
            lemma_weighted_sum_bounded(harmonics, sine, phase);
            let sum = weighted_sum(harmonics, sine, phase);
            let total = total_amplitude(harmonics) as int;
            lemma_quotient_bounded(sum, total, 1_000_000);
        },
        _ => {},
    }
}

/// If `|n| <= bound * d` then `n / d`, rounded toward zero, is at most `bound`
/// in magnitude.
proof fn lemma_quotient_bounded(n: int, d: int, bound: int)
    requires
        d > 0,
        bound >= 0,
        -bound * d <= n <= bound * d,
    ensures
        -bound <= div_toward_zero(n, d) <= bound,
{
    assert((-bound) * d == -(bound * d)) by (nonlinear_arith);
    if n >= 0 {
        assert(0 <= n / d <= bound) by (nonlinear_arith)
            requires
                d > 0,
                0 <= n <= bound * d,
        ;
    } else {
        assert(0 <= (-n) / d <= bound) by (nonlinear_arith)
            requires
                d > 0,
                0 <= -n <= bound * d,
        ;
    }
}

} // verus!
