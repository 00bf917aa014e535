//! The ADSR envelope: the gain of a tone as a function of the time since it
//! began. It has no state; every value is computed from the time alone.

use crate::tone::ToneParams;
use crate::units::ONE;
use vstd::prelude::*;

verus! {

/// The four numbers of an envelope: attack, decay and release in
/// microseconds, and the sustain level in millionths.
pub struct EnvelopeShape {
    pub attack: nat,
    pub decay: nat,
    pub sustain: nat,
    pub release: nat,
}

/// The gain at `time` of a tone that lasts `duration`, in millionths.
///
/// The release begins at `duration - release`. Before the attack has passed
/// the gain rises from 0 as `time / attack`; during the decay it falls from 1
/// to the sustain level as `1 - (1 - sustain) * (time - attack) / decay`; it
/// then holds the sustain level until the release begins; from there it falls
/// as `sustain * (1 - elapsed / release)` and is 0 once the release is over.
/// A phase of zero length is passed at once, so nothing is ever divided by
/// zero. Quotients are rounded down.
pub open spec fn envelope_level(shape: EnvelopeShape, time: nat, duration: nat) -> int {
    let t: int = time as int;
    let attack: int = shape.attack as int;
    let decay: int = shape.decay as int;
    let sustain: int = shape.sustain as int;
    let release: int = shape.release as int;
    let note_off: int = duration - release;
    if t < attack {
        (t * 1_000_000) / attack
    } else if t < attack + decay {
        1_000_000 - ((1_000_000 - sustain) * (t - attack)) / decay
    } else if t < note_off {
        sustain
    } else if t - note_off >= release {
        0
    } else {
        (sustain * (release - (t - note_off))) / release
    }
}

/// `v` held to the range from `low` to `high`.
pub open spec fn clamped(v: int, low: int, high: int) -> int {
    if v < low {
        low
    } else if v > high {
        high
    } else {
        v
    }
}

/// The envelope that a tone's parameters describe. Parameters that pass
/// validation are taken as they are; a negative time counts as 0, and a
/// sustain level outside 0 to 1 as the nearer of the two.
pub open spec fn shape_of(params: &ToneParams) -> EnvelopeShape {
    EnvelopeShape {
        attack: clamped(params.attack as int, 0, i64::MAX as int) as nat,
        decay: clamped(params.decay as int, 0, i64::MAX as int) as nat,
        sustain: clamped(params.sustain as int, 0, 1_000_000) as nat,
        release: clamped(params.release as int, 0, i64::MAX as int) as nat,
    }
}

/// An envelope. Its sustain level is never above 1.
#[derive(Debug)]
pub struct Envelope {
    attack: u64,
    decay: u64,
    sustain: u32,
    release: u64,
}

impl View for Envelope {
    type V = EnvelopeShape;

    closed spec fn view(&self) -> EnvelopeShape {
        EnvelopeShape {
            attack: self.attack as nat,
            decay: self.decay as nat,
            sustain: self.sustain as nat,
            release: self.release as nat,
        }
    }
}

impl Envelope {
    #[verifier::type_invariant]
    spec fn well_formed(&self) -> bool {
        self.sustain <= 1_000_000
    }

    /// The envelope of a tone.
    pub fn new(params: &ToneParams) -> (envelope: Envelope)
        ensures
            envelope@ == shape_of(params),
    {
        Envelope {
            attack: if params.attack < 0 {
                0
            } else {
                params.attack as u64
            },
            decay: if params.decay < 0 {
                0
            } else {
                params.decay as u64
            },
            sustain: if params.sustain < 0 {
                0
            } else if params.sustain > 1_000_000 {
                1_000_000
            } else {
                params.sustain as u32
            },
            release: if params.release < 0 {
                0
            } else {
                params.release as u64
            },
        }
    }

    /// The gain at `time` microseconds into a tone of `duration` microseconds.
    pub fn get_amplitude(&self, time: u64, duration: u64) -> (level: u32)
        ensures
            level == envelope_level(self@, time as nat, duration as nat),
            level <= ONE,
    {
        proof {
            use_type_invariant(self);
            lemma_envelope_in_range(self@, time as nat, duration as nat);
        }
        let note_off: i128 = duration as i128 - self.release as i128;
        if time < self.attack {
            ((time as u128 * 1_000_000) / self.attack as u128) as u32
        } else if (time as u128) < self.attack as u128 + self.decay as u128 {
            let span: u128 = (1_000_000 - self.sustain) as u128;
            let into: u128 = (time - self.attack) as u128;
            assert(span * into <= 1_000_000 * into) by (nonlinear_arith)
                requires
                    span <= 1_000_000,
            ;
            let fallen: u128 = (span * into) / self.decay as u128;
            (1_000_000 - fallen) as u32
        } else if (time as i128) < note_off {
            self.sustain
        } else {
            let elapsed: i128 = time as i128 - note_off;
            if elapsed >= self.release as i128 {
                0
            } else {
                let left: u128 = (self.release as i128 - elapsed) as u128;
                let level: u128 = self.sustain as u128;
                assert(level * left <= 1_000_000 * left) by (nonlinear_arith)
                    requires
                        level <= 1_000_000,
                ;
                ((level * left) / self.release as u128) as u32
            }
        }
    }
}

/// The gain is a ratio: it never leaves the range from 0 to 1, whatever the
/// times are.
pub proof fn lemma_envelope_in_range(shape: EnvelopeShape, time: nat, duration: nat)
    requires
        shape.sustain <= 1_000_000,
    ensures
        0 <= envelope_level(shape, time, duration) <= 1_000_000,
        shape.attack <= time < shape.attack + shape.decay ==> shape.sustain <= envelope_level(
            shape,
            time,
            duration,
        ),
        time >= shape.attack + shape.decay ==> envelope_level(shape, time, duration)
            <= shape.sustain,
{
    let note_off: int = duration - shape.release;
    let a: int = shape.attack as int;
    let d: int = shape.decay as int;
    let s: int = shape.sustain as int;
    let r: int = shape.release as int;
    let t: int = time as int;
    if t < a {
        assert(0 <= (t * 1_000_000) / a <= 1_000_000) by (nonlinear_arith)
            requires
                0 <= t < a,
        ;
    } else if t < a + d {
        assert(0 <= ((1_000_000 - s) * (t - a)) / d <= 1_000_000 - s) by (nonlinear_arith)
            requires
                0 <= t - a < d,
                0 <= 1_000_000 - s,
        ;
    } else if 0 <= t - note_off < r {
        let left: int = r - (t - note_off);
        assert(0 <= (s * left) / r <= s) by (nonlinear_arith)
            requires
                0 < left <= r,
                0 <= s,
        ;
    }
}

/// A tone with an attack begins in silence.
pub proof fn lemma_envelope_begins_at_zero(shape: EnvelopeShape, duration: nat)
    requires
        shape.attack > 0,
    ensures
        envelope_level(shape, 0, duration) == 0,
{
}

/// At the end of the attack the gain is exactly 1 whenever there is a decay
/// to fall from. Without a decay the gain goes straight to what follows, so
/// it is 1 only if the sustain level is 1 and the release has not already
/// run out.
pub proof fn lemma_envelope_peaks_after_attack(shape: EnvelopeShape, duration: nat)
    requires
        shape.sustain <= 1_000_000,
    ensures
        envelope_level(shape, shape.attack, duration) == 1_000_000 <==> (shape.decay > 0 || (
        shape.sustain == 1_000_000 && (shape.attack + shape.release < duration || (shape.attack
            + shape.release == duration && shape.release > 0)))),
{
    let s: int = shape.sustain as int;
    let r: int = shape.release as int;
    let note_off: int = duration - r;
    let elapsed: int = shape.attack - note_off;
    if shape.decay == 0 && 0 <= elapsed < r {
        lemma_release_level(s, r, elapsed);
    }
}

/// At the end of the decay the gain is exactly the sustain level, unless the
/// release has begun earlier and has already lowered it: it fails to be so
/// only where a sustain level above 0 meets a release that started before the
/// decay ended, or that has no length and starts at that very moment.
pub proof fn lemma_envelope_sustains_after_decay(shape: EnvelopeShape, duration: nat)
    requires
        shape.sustain <= 1_000_000,
    ensures
        envelope_level(shape, shape.attack + shape.decay, duration) == shape.sustain <==> (
        shape.sustain == 0 || shape.attack + shape.decay + shape.release < duration || (
        shape.attack + shape.decay + shape.release == duration && shape.release > 0)),
{
    let s: int = shape.sustain as int;
    let r: int = shape.release as int;
    let note_off: int = duration - r;
    let elapsed: int = shape.attack + shape.decay - note_off;
    if 0 <= elapsed < r {
        lemma_release_level(s, r, elapsed);
    }
}

/// A tone whose envelope fits into its duration and has a release ends in
/// silence.
pub proof fn lemma_envelope_ends_at_zero(shape: EnvelopeShape, duration: nat)
    requires
        shape.release > 0,
        shape.attack + shape.decay + shape.release <= duration,
    ensures
        envelope_level(shape, duration, duration) == 0,
{
}

/// During a release the gain is the sustain level at its first moment and
/// below it afterwards, unless the sustain level is 0.
proof fn lemma_release_level(s: int, r: int, elapsed: int)
    requires
        0 <= s,
        0 <= elapsed < r,
    ensures
        elapsed == 0 ==> (s * (r - elapsed)) / r == s,
        elapsed > 0 && s > 0 ==> (s * (r - elapsed)) / r < s,
        s == 0 ==> (s * (r - elapsed)) / r == 0,
{
    assert(elapsed == 0 ==> (s * (r - elapsed)) / r == s) by (nonlinear_arith)
        requires
            r > 0,
    ;
    assert(elapsed > 0 && s > 0 ==> (s * (r - elapsed)) / r < s) by (nonlinear_arith)
        requires
            0 <= elapsed < r,
            0 <= s,
    ;
    assert(s == 0 ==> (s * (r - elapsed)) / r == 0) by (nonlinear_arith)
        requires
            r > 0,
    ;
}

} // verus!
