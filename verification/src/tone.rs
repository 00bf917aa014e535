//! The description of a tone, the rules it must meet before anything is
//! generated, and the errors that say which rule was broken.

use crate::text::{decimal_fraction, millionths_to_string};
use vstd::prelude::*;

verus! {

/// Lowest accepted frequency, in microhertz: 20 Hz.
pub const MIN_FREQUENCY: i64 = 20_000_000;

/// Highest accepted frequency, in microhertz: 20 kHz.
pub const MAX_FREQUENCY: i64 = 20_000_000_000;

/// Why a tone cannot be generated.
#[derive(Debug)]
pub enum ToneError {
    /// A parameter could not be read; the text says which.
    Parse(String),
    /// The frequency, in microhertz, lies outside 20 Hz to 20 kHz.
    InvalidFrequency(i64),
    /// The duration, in microseconds, is not positive.
    InvalidDuration(i64),
    /// The envelope breaks the rule that the text names.
    InvalidEnvelope(String),
}

/// A `ToneError` with its texts as character sequences.
pub enum ToneErrorView {
    Parse(Seq<char>),
    InvalidFrequency(int),
    InvalidDuration(int),
    InvalidEnvelope(Seq<char>),
}

impl View for ToneError {
    type V = ToneErrorView;

    open spec fn view(&self) -> ToneErrorView {
        match self {
            ToneError::Parse(text) => ToneErrorView::Parse(text@),
            ToneError::InvalidFrequency(value) => ToneErrorView::InvalidFrequency(*value as int),
            ToneError::InvalidDuration(value) => ToneErrorView::InvalidDuration(*value as int),
            ToneError::InvalidEnvelope(text) => ToneErrorView::InvalidEnvelope(text@),
        }
    }
}

/// A tone: frequency in microhertz, duration and the envelope's attack, decay
/// and release in microseconds, the sustain level in millionths, and the
/// waveform by name.
#[derive(Debug)]
pub struct ToneParams {
    pub freq: i64,
    pub dur: i64,
    pub attack: i64,
    pub decay: i64,
    pub sustain: i64,
    pub release: i64,
    pub waveform: String,
}

/// The text for an envelope with a negative time.
pub open spec fn negative_time_text() -> Seq<char> {
    "Attack, decay, and release times must be non-negative"@
}

/// The text for a sustain level outside 0 to 1; it ends with the level,
/// given in millionths, written as a decimal fraction.
pub open spec fn sustain_text(sustain: int) -> Seq<char> {
    "Sustain level must be between 0 and 1, got "@ + decimal_fraction(sustain)
}

/// The text for an envelope longer than the tone.
pub open spec fn total_time_text() -> Seq<char> {
    "Total envelope time exceeds duration"@
}

impl ToneParams {
    /// Whether every rule holds: the frequency within 20 Hz to 20 kHz, a
    /// positive duration, no negative envelope time, a sustain level from 0 to
    /// 1, and an envelope no longer than the tone.
    pub open spec fn is_valid(&self) -> bool {
        &&& MIN_FREQUENCY <= self.freq <= MAX_FREQUENCY
        &&& self.dur > 0
        &&& self.attack >= 0
        &&& self.decay >= 0
        &&& self.release >= 0
        &&& 0 <= self.sustain <= 1_000_000
        &&& self.attack + self.decay + self.release <= self.dur
    }

    /// The error for the first rule that is broken, taking the rules in the
    /// order of `is_valid`; none if all hold.
    pub open spec fn first_fault(&self) -> Option<ToneErrorView> {
        if !(MIN_FREQUENCY <= self.freq <= MAX_FREQUENCY) {
            Some(ToneErrorView::InvalidFrequency(self.freq as int))
        } else if self.dur <= 0 {
            Some(ToneErrorView::InvalidDuration(self.dur as int))
        } else if self.attack < 0 || self.decay < 0 || self.release < 0 {
            Some(ToneErrorView::InvalidEnvelope(negative_time_text()))
        } else if !(0 <= self.sustain <= 1_000_000) {
            Some(ToneErrorView::InvalidEnvelope(sustain_text(self.sustain as int)))
        } else if self.attack + self.decay + self.release > self.dur {
            Some(ToneErrorView::InvalidEnvelope(total_time_text()))
        } else {
            None
        }
    }

    /// Checks the rules and reports the first one broken.
    pub fn validate(&self) -> (result: Result<(), ToneError>)
        ensures
            result is Ok <==> self.is_valid(),
            match result {
                Ok(_) => self.first_fault() is None,
                Err(error) => self.first_fault() == Some(error@),
            },
    {
        if self.freq < MIN_FREQUENCY || self.freq > MAX_FREQUENCY {
            return Err(ToneError::InvalidFrequency(self.freq));
        }
        if self.dur <= 0 {
            return Err(ToneError::InvalidDuration(self.dur));
        }
        if self.attack < 0 || self.decay < 0 || self.release < 0 {
            return Err(
                ToneError::InvalidEnvelope(
                    String::from_str("Attack, decay, and release times must be non-negative"),
                ),
            );
        }
        if self.sustain < 0 || self.sustain > 1_000_000 {
            let mut text = String::from_str("Sustain level must be between 0 and 1, got ");
            let level = millionths_to_string(self.sustain);
            text.append(level.as_str());
            return Err(ToneError::InvalidEnvelope(text));
        }
        let total: i128 = self.attack as i128 + self.decay as i128 + self.release as i128;
        if total > self.dur as i128 {
            return Err(
                ToneError::InvalidEnvelope(String::from_str("Total envelope time exceeds duration")),
            );
        }
        Ok(())
    }
}

impl Default for ToneParams {
    /// Concert pitch for one second: 440 Hz, 100 ms each of attack, decay and
    /// release, sustained at 0.7, as a sine.
    fn default() -> (params: ToneParams)
        ensures
            params.freq == 440_000_000,
            params.dur == 1_000_000,
            params.attack == 100_000,
            params.decay == 100_000,
            params.sustain == 700_000,
            params.release == 100_000,
            params.waveform@ == "sin"@,
            params.is_valid(),
    {
        ToneParams {
            freq: 440_000_000,
            dur: 1_000_000,
            attack: 100_000,
            decay: 100_000,
            sustain: 700_000,
            release: 100_000,
            waveform: String::from_str("sin"),
        }
    }
}

/// Values given on a command line, each of which replaces the default of the
/// same name if it is there.
#[derive(Debug)]
pub struct Overrides {
    pub waveform: Option<String>,
    pub frequency: Option<i64>,
    pub dur: Option<i64>,
    pub attack: Option<i64>,
    pub decay: Option<i64>,
    pub sustain: Option<i64>,
    pub release: Option<i64>,
}

/// `value` if it is there, `default` if not.
pub open spec fn given_or(value: Option<i64>, default: i64) -> i64 {
    match value {
        Some(v) => v,
        None => default,
    }
}

impl Overrides {
    /// The default tone with every given value put in place of its default.
    /// Nothing is validated here.
    pub fn to_tone_params(&self) -> (params: ToneParams)
        ensures
            params.freq == given_or(self.frequency, 440_000_000),
            params.dur == given_or(self.dur, 1_000_000),
            params.attack == given_or(self.attack, 100_000),
            params.decay == given_or(self.decay, 100_000),
            params.sustain == given_or(self.sustain, 700_000),
            params.release == given_or(self.release, 100_000),
            params.waveform@ == match self.waveform {
                Some(name) => name@,
                None => "sin"@,
            },
    {
        let mut params = ToneParams::default();
        if let Some(waveform) = &self.waveform {
            params.waveform = waveform.clone();
        }
        if let Some(freq) = self.frequency {
            params.freq = freq;
        }
        if let Some(dur) = self.dur {
            params.dur = dur;
        }
        if let Some(attack) = self.attack {
            params.attack = attack;
        }
        if let Some(decay) = self.decay {
            params.decay = decay;
        }
        if let Some(sustain) = self.sustain {
            params.sustain = sustain;
        }
        if let Some(release) = self.release {
            params.release = release;
        }
        params
    }
}

} // verus!
