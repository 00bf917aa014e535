//! MIDI notes: the name of a note number, and the note that a number or a
//! name such as `C4`, `G#4` or `Eb5` stands for.

use crate::text::{
    decimal, integer_to_string, reads, to_uppercase, trim, trimmed_of, uppercase_of,
};
use vstd::prelude::*;
use vstd::string::StrSliceExecFns;

verus! {

/// The letters of the twelve notes of an octave, from C upward.
pub open spec fn note_letters(index: nat) -> Seq<char>
    recommends
        index < 12,
{
    if index == 0 {
        "C"@
    } else if index == 1 {
        "C#"@
    } else if index == 2 {
        "D"@
    } else if index == 3 {
        "D#"@
    } else if index == 4 {
        "E"@
    } else if index == 5 {
        "F"@
    } else if index == 6 {
        "F#"@
    } else if index == 7 {
        "G"@
    } else if index == 8 {
        "G#"@
    } else if index == 9 {
        "A"@
    } else if index == 10 {
        "A#"@
    } else {
        "B"@
    }
}

/// The name of a note: its letters, then its octave, note 0 being in octave
/// -1 and note 60, middle C, in octave 4.
pub open spec fn note_name(midi_note: u8) -> Seq<char> {
    note_letters((midi_note % 12) as nat) + decimal(midi_note as int / 12 - 1)
}

/// Names a MIDI note.
pub fn get_note_name(midi_note: u8) -> (name: String)
    ensures
        name@ == note_name(midi_note),
{
    let note_index: u8 = midi_note % 12;
    let octave: i64 = (midi_note / 12) as i64 - 1;
    let letters = if note_index == 0 {
        "C"
    } else if note_index == 1 {
        "C#"
    } else if note_index == 2 {
        "D"
    } else if note_index == 3 {
        "D#"
    } else if note_index == 4 {
        "E"
    } else if note_index == 5 {
        "F"
    } else if note_index == 6 {
        "F#"
    } else if note_index == 7 {
        "G"
    } else if note_index == 8 {
        "G#"
    } else if note_index == 9 {
        "A"
    } else if note_index == 10 {
        "A#"
    } else {
        "B"
    };
    let mut name = String::from_str(letters);
    let number = integer_to_string(octave);
    name.append(number.as_str());
    name
}

/// The value of a decimal digit, if the character is one.
pub open spec fn digit_value(c: char) -> Option<nat> {
    if '0' <= c <= '9' {
        Some((c as nat - '0' as nat) as nat)
    } else {
        None
    }
}

/// Whether every character is a decimal digit.
pub open spec fn all_digits(text: Seq<char>) -> bool {
    forall|i: int| 0 <= i < text.len() ==> digit_value(#[trigger] text[i]) is Some
}

/// The number that a string of digits writes.
pub open spec fn digits_value(digits: Seq<char>) -> nat
    decreases digits.len(),
{
    if digits.len() == 0 {
        0
    } else {
        digits_value(digits.drop_last()) * 10 + digit_value(digits.last()).unwrap_or(0)
    }
}

/// The MIDI note that a numeral writes: an optional plus sign and at least
/// one digit, worth at most 127.
pub open spec fn midi_number(text: Seq<char>) -> Option<u8> {
    let digits = if text.len() > 0 && text[0] == '+' {
        text.skip(1)
    } else {
        text
    };
    if digits.len() > 0 && all_digits(digits) && digits_value(digits) <= 127 {
        Some(digits_value(digits) as u8)
    } else {
        None
    }
}

/// The semitone above C that note letters in upper case stand for. A sharp is
/// written `#` and a flat `B`.
pub open spec fn letters_semitone(upper: Seq<char>) -> Option<nat> {
    if upper == "C"@ {
        Some(0)
    } else if upper == "C#"@ || upper == "DB"@ {
        Some(1)
    } else if upper == "D"@ {
        Some(2)
    } else if upper == "D#"@ || upper == "EB"@ {
        Some(3)
    } else if upper == "E"@ {
        Some(4)
    } else if upper == "F"@ {
        Some(5)
    } else if upper == "F#"@ || upper == "GB"@ {
        Some(6)
    } else if upper == "G"@ {
        Some(7)
    } else if upper == "G#"@ || upper == "AB"@ {
        Some(8)
    } else if upper == "A"@ {
        Some(9)
    } else if upper == "A#"@ || upper == "BB"@ {
        Some(10)
    } else if upper == "B"@ {
        Some(11)
    } else {
        None
    }
}

/// The MIDI note of a semitone in an octave, if there is one: octave -1
/// starts at note 0, and the last note is 127.
pub open spec fn note_in_octave(semitone: Option<nat>, octave: nat) -> Option<u8> {
    match semitone {
        Some(semitone) => if (octave + 1) * 12 + semitone <= 127 {
            Some(((octave + 1) * 12 + semitone) as u8)
        } else {
            None
        },
        None => None,
    }
}

/// The MIDI note that a name stands for: letters, then one digit for the
/// octave.
pub open spec fn named_note(name: Seq<char>) -> Option<u8> {
    if name.len() < 2 {
        None
    } else {
        match digit_value(name.last()) {
            Some(octave) => note_in_octave(
                letters_semitone(uppercase_of(name.drop_last())),
                octave,
            ),
            None => None,
        }
    }
}

/// The MIDI note that a text stands for: as a number if it is one, otherwise
/// as a name, white space at its ends not counting.
pub open spec fn parsed_note(text: Seq<char>) -> Option<u8> {
    match midi_number(text) {
        Some(number) => Some(number),
        None => named_note(trimmed_of(text)),
    }
}

/// A MIDI note number, from 0 to 127.
#[derive(Debug, Clone, Copy, PartialEq, Eq, Structural)]
pub struct Note(pub u8);

/// The text stands for no note.
#[derive(Debug, Clone, Copy, PartialEq, Eq, Structural)]
pub struct NoteParseError;

/// Reads a numeral as a MIDI note number.
pub fn parse_midi_number(s: &str) -> (number: Option<u8>)
    ensures
        number == midi_number(s@),
{
    let len = s.unicode_len();
    let start: usize = if len > 0 && s.get_char(0) == '+' {
        1
    } else {
        0
    };
    if start == len {
        return None;
    }
    let ghost digits = if s@.len() > 0 && s@[0] == '+' {
        s@.skip(1)
    } else {
        s@
    };
    let mut value: u32 = 0;
    let mut i: usize = start;
    while i < len
        invariant
            start <= i <= len,
            len == s@.len(),
            digits =~= s@.skip(start as int),
            digits == if s@.len() > 0 && s@[0] == '+' {
                s@.skip(1)
            } else {
                s@
            },
            all_digits(digits.take(i - start)),
            value <= 128,
            value == if digits_value(digits.take(i - start)) <= 127 {
                digits_value(digits.take(i - start))
            } else {
                128
            },
        decreases len - i,
    {
        let c = s.get_char(i);
        proof {
            assert(digits.take(i - start + 1).drop_last() =~= digits.take(i - start));
        }
        if c < '0' || c > '9' {
            assert(!all_digits(digits)) by {
                assert(digit_value(digits[i - start]) is None);
            }
            return None;
        }
        let digit: u32 = c as u32 - '0' as u32;
        value = if value > 127 {
            128
        } else {
            value * 10 + digit
        };
        if value > 127 {
            value = 128;
        }
        i = i + 1;
    }
    proof {
        assert(digits.take(len - start) =~= digits);
    }
    if value > 127 {
        None
    } else {
        Some(value as u8)
    }
}

/// The semitone above C of note letters in upper case.
pub fn semitone_of(upper: &String) -> (semitone: Option<u8>)
    ensures
        match semitone {
            Some(value) => letters_semitone(upper@) == Some(value as nat) && value < 12,
            None => letters_semitone(upper@) is None,
        },
{
    if reads(upper, "C") {
        Some(0)
    } else if reads(upper, "C#") || reads(upper, "DB") {
        Some(1)
    } else if reads(upper, "D") {
        Some(2)
    } else if reads(upper, "D#") || reads(upper, "EB") {
        Some(3)
    } else if reads(upper, "E") {
        Some(4)
    } else if reads(upper, "F") {
        Some(5)
    } else if reads(upper, "F#") || reads(upper, "GB") {
        Some(6)
    } else if reads(upper, "G") {
        Some(7)
    } else if reads(upper, "G#") || reads(upper, "AB") {
        Some(8)
    } else if reads(upper, "A") {
        Some(9)
    } else if reads(upper, "A#") || reads(upper, "BB") {
        Some(10)
    } else if reads(upper, "B") {
        Some(11)
    } else {
        None
    }
}

impl Note {
    /// The note of letters in upper case in the octave of the given digit.
    pub fn from_letters(upper: &String, octave: u8) -> (result: Result<Note, NoteParseError>)
        ensures
            match result {
                Ok(note) => note_in_octave(letters_semitone(upper@), octave as nat) == Some(
                    note.0,
                ),
                Err(_) => note_in_octave(letters_semitone(upper@), octave as nat) is None,
            },
    {
        match semitone_of(upper) {
            Some(semitone) => {
                let midi_note: u32 = (octave as u32 + 1) * 12 + semitone as u32;
                if midi_note <= 127 {
                    Ok(Note(midi_note as u8))
                } else {
                    Err(NoteParseError)
                }
            },
            None => Err(NoteParseError),
        }
    }

    /// The note that a name stands for.
    pub fn from_name(name: &str) -> (result: Result<Note, NoteParseError>)
        ensures
            match result {
                Ok(note) => named_note(name@) == Some(note.0),
                Err(_) => named_note(name@) is None,
            },
    {
        let len = name.unicode_len();
        if len < 2 {
            return Err(NoteParseError);
        }
        let last = name.get_char(len - 1);
        if last < '0' || last > '9' {
            return Err(NoteParseError);
        }
        let octave: u8 = (last as u32 - '0' as u32) as u8;
        let letters = name.substring_char(0, len - 1);
        let upper = to_uppercase(letters);
        Note::from_letters(&upper, octave)
    }

    /// The note that a text stands for: a number from 0 to 127, or a name.
    pub fn from_str(s: &str) -> (result: Result<Note, NoteParseError>)
        ensures
            match result {
                Ok(note) => parsed_note(s@) == Some(note.0),
                Err(_) => parsed_note(s@) is None,
            },
    {
        match parse_midi_number(s) {
            Some(midi_note) => Ok(Note(midi_note)),
            None => Note::from_name(trim(s)),
        }
    }
}

} // verus!
