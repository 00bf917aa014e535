//! Text: decimal numerals and how they are written out, and the standard
//! library's changes of case and trimming of white space.

use vstd::prelude::*;

verus! {

/// The character of a decimal digit.
pub open spec fn digit_char(d: nat) -> char
    recommends
        d < 10,
{
    if d == 0 {
        '0'
    } else if d == 1 {
        '1'
    } else if d == 2 {
        '2'
    } else if d == 3 {
        '3'
    } else if d == 4 {
        '4'
    } else if d == 5 {
        '5'
    } else if d == 6 {
        '6'
    } else if d == 7 {
        '7'
    } else if d == 8 {
        '8'
    } else {
        '9'
    }
}

/// The decimal numeral of a natural number, without leading zeros.
pub open spec fn decimal_digits(n: nat) -> Seq<char>
    decreases n,
{
    if n < 10 {
        seq![digit_char(n)]
    } else {
        decimal_digits(n / 10).push(digit_char(n % 10))
    }
}

/// The decimal numeral of an integer, with a minus sign if it is negative.
pub open spec fn decimal(n: int) -> Seq<char> {
    if n < 0 {
        seq!['-'] + decimal_digits((-n) as nat)
    } else {
        decimal_digits(n as nat)
    }
}

/// The digits after the decimal point of `f / (10 * unit)`, for `unit` a
/// power of ten and `f` below `10 * unit`, without trailing zeros.
pub open spec fn fraction_digits(f: nat, unit: nat) -> Seq<char>
    decreases unit,
{
    if f == 0 || unit == 0 {
        Seq::<char>::empty()
    } else {
        seq![digit_char(f / unit)] + fraction_digits(f % unit, unit / 10)
    }
}

/// A count of millionths written as a decimal fraction: the whole part, and
/// after a point the digits of the rest if there is a rest, as in `1.5`,
/// `-0.25` and `2`.
pub open spec fn decimal_fraction(millionths: int) -> Seq<char> {
    let magnitude: nat = if millionths < 0 {
        (-millionths) as nat
    } else {
        millionths as nat
    };
    let sign: Seq<char> = if millionths < 0 {
        seq!['-']
    } else {
        Seq::<char>::empty()
    };
    let rest: Seq<char> = if magnitude % 1_000_000 == 0 {
        Seq::<char>::empty()
    } else {
        seq!['.'] + fraction_digits(magnitude % 1_000_000, 100_000)
    };
    sign + decimal_digits(magnitude / 1_000_000) + rest
}

fn digit_str(d: u64) -> (s: &'static str)
    requires
        d < 10,
    ensures
        s@ == seq![digit_char(d as nat)],
{
    proof {
        reveal_strlit("0");
        reveal_strlit("1");
        reveal_strlit("2");
        reveal_strlit("3");
        reveal_strlit("4");
        reveal_strlit("5");
        reveal_strlit("6");
        reveal_strlit("7");
        reveal_strlit("8");
        reveal_strlit("9");
    }
    let s = if d == 0 {
        "0"
    } else if d == 1 {
        "1"
    } else if d == 2 {
        "2"
    } else if d == 3 {
        "3"
    } else if d == 4 {
        "4"
    } else if d == 5 {
        "5"
    } else if d == 6 {
        "6"
    } else if d == 7 {
        "7"
    } else if d == 8 {
        "8"
    } else {
        "9"
    };
    s
}

/// Writes a natural number in decimal.
pub fn natural_to_string(n: u64) -> (s: String)
    ensures
        s@ == decimal_digits(n as nat),
    decreases n,
{
    if n < 10 {
        String::from_str(digit_str(n))
    } else {
        let mut s = natural_to_string(n / 10);
        s.append(digit_str(n % 10));
        s
    }
}

/// Writes an integer in decimal.
pub fn integer_to_string(n: i64) -> (s: String)
    ensures
        s@ == decimal(n as int),
{
    if n < 0 {
        let magnitude: u64 = (-(n as i128)) as u64;
        let mut s = String::from_str("-");
        let digits = natural_to_string(magnitude);
        s.append(digits.as_str());
        proof {
            reveal_strlit("-");
        }
        s
    } else {
        natural_to_string(n as u64)
    }
}

/// Appends the digits after the decimal point of `f / (10 * unit)`.
fn append_fraction(text: &mut String, f: u64, unit: u64)
    requires
        f == 0 || f < 10 * unit,
        unit == 0 || unit == 1 || unit == 10 || unit == 100 || unit == 1_000 || unit == 10_000
            || unit == 100_000,
    ensures
        final(text)@ == old(text)@ + fraction_digits(f as nat, unit as nat),
    decreases unit,
{
    if f == 0 || unit == 0 {
        assert(text@ =~= old(text)@ + fraction_digits(f as nat, unit as nat));
    } else {
        text.append(digit_str(f / unit));
        append_fraction(text, f % unit, unit / 10);
        assert(text@ =~= old(text)@ + fraction_digits(f as nat, unit as nat));
    }
}

/// Writes a count of millionths as a decimal fraction.
pub fn millionths_to_string(millionths: i64) -> (s: String)
    ensures
        s@ == decimal_fraction(millionths as int),
{
    let magnitude: u64 = if millionths < 0 {
        (-(millionths as i128)) as u64
    } else {
        millionths as u64
    };
    let mut s = if millionths < 0 {
        String::from_str("-")
    } else {
        String::new()
    };
    proof {
        reveal_strlit("-");
        reveal_strlit(".");
    }
    let whole = natural_to_string(magnitude / 1_000_000);
    s.append(whole.as_str());
    if magnitude % 1_000_000 != 0 {
        s.append(".");
        append_fraction(&mut s, magnitude % 1_000_000, 100_000);
    }
    assert(s@ =~= decimal_fraction(millionths as int));
    s
}

/// The text that `str::to_lowercase` gives for `text`.
pub uninterp spec fn lowercase_of(text: Seq<char>) -> Seq<char>;

/// Calls `str::to_lowercase` of the standard library, which maps each
/// character by Unicode's lowercase rules. Nothing is claimed about the
/// mapping itself: the result is only given a name.
#[verifier::external_body]
pub(crate) fn to_lowercase(text: &str) -> (lower: String)
    ensures
        lower@ == lowercase_of(text@),
{
    text.to_lowercase()
}

/// The text that `str::to_uppercase` gives for `text`.
pub uninterp spec fn uppercase_of(text: Seq<char>) -> Seq<char>;

/// Calls `str::to_uppercase` of the standard library, which maps each
/// character by Unicode's uppercase rules. Nothing is claimed about the
/// mapping itself: the result is only given a name.
#[verifier::external_body]
pub(crate) fn to_uppercase(text: &str) -> (upper: String)
    ensures
        upper@ == uppercase_of(text@),
{
    text.to_uppercase()
}

/// Whether `c` is white space to `str::trim`: whether it has Unicode's
/// White_Space property.
pub uninterp spec fn white_space(c: char) -> bool;

/// The number of white-space characters at the front of `text`.
pub open spec fn leading_white_space(text: Seq<char>) -> nat
    decreases text.len(),
{
    if text.len() > 0 && white_space(text[0]) {
        1 + leading_white_space(text.skip(1))
    } else {
        0
    }
}

/// The number of white-space characters at the back of `text`.
pub open spec fn trailing_white_space(text: Seq<char>) -> nat
    decreases text.len(),
{
    if text.len() > 0 && white_space(text.last()) {
        1 + trailing_white_space(text.drop_last())
    } else {
        0
    }
}

/// `text` without the white space at its two ends: what lies from its first
/// to its last character that is not white space, and nothing if there is no
/// such character.
pub open spec fn trimmed_of(text: Seq<char>) -> Seq<char> {
    let rest = text.skip(leading_white_space(text) as int);
    rest.take(rest.len() - trailing_white_space(rest))
}

/// Calls `str::trim` of the standard library, which returns the text with
/// leading and trailing white space removed, so that what is left neither
/// begins nor ends in white space. Which characters are white space is left
/// to the name `white_space`; nothing is claimed of any one of them.
#[verifier::external_body]
pub(crate) fn trim(text: &str) -> (trimmed: &str)
    ensures
        trimmed@ == trimmed_of(text@),
        trimmed@.len() > 0 ==> !white_space(trimmed@[0]) && !white_space(trimmed@.last()),
{
    text.trim()
}

/// Trimming leaves alone a text that neither begins nor ends in white space.
pub proof fn lemma_trim_keeps_clean_text(text: Seq<char>)
    requires
        text.len() > 0 ==> !white_space(text[0]) && !white_space(text.last()),
    ensures
        trimmed_of(text) == text,
{
    assert(text.skip(0) =~= text);
    assert(text.take(text.len() as int) =~= text);
}

/// Whether `text` reads exactly `name`.
pub fn reads(text: &String, name: &str) -> (same: bool)
    ensures
        same == (text@ == name@),
{
    let owned = String::from_str(name);
    *text == owned
}

} // verus!
