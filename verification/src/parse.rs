//! Reading pitch, rate and style degree as the command line and the
//! profile give them.
//!
//! A number is recognised by its text alone. Turning one into a percentage
//! is arithmetic on numbers with a fraction, which the caller does.

use vstd::prelude::*;
use vstd::slice::*;
use vstd::string::*;
use crate::text::{chars_eq, ends_with, has_suffix, to_chars};

verus! {

/// Why a value could not be read.
#[derive(Debug)]
#[non_exhaustive]
pub struct ParseError {
    pub reason: String,
}

impl ParseError {
    pub fn new(reason: String) -> (error: Self)
        ensures
            error.reason@ == reason@,
    {
        ParseError { reason }
    }

    /// The error as one line of text.
    pub fn message(&self) -> (line: String)
        ensures
            line@ == "parse error: "@ + self.reason@,
    {
        let mut line = String::from_str("parse error: ");
        line.append(self.reason.as_str());
        line
    }
}

/// A pitch or a rate as it was read.
#[derive(Debug, PartialEq, Eq)]
pub enum Prosody<'a> {
    /// The value goes into the markup as it stands.
    Verbatim(&'a str),
    /// The value is a number, which goes into the markup as a percentage,
    /// a hundred times the number, with two digits after the point.
    Fraction(&'a str),
}

/// The mathematical value of a [`Prosody`].
#[verifier::ext_equal]
pub ghost enum ProsodyView {
    Verbatim(Seq<char>),
    Fraction(Seq<char>),
}

impl<'a> View for Prosody<'a> {
    type V = ProsodyView;

    open spec fn view(&self) -> ProsodyView {
        match self {
            Prosody::Verbatim(text) => ProsodyView::Verbatim(text@),
            Prosody::Fraction(text) => ProsodyView::Fraction(text@),
        }
    }
}

/// A decimal digit.
pub open spec fn is_digit(c: char) -> bool {
    '0' <= c <= '9'
}

/// A sign.
pub open spec fn is_sign(c: char) -> bool {
    c == '+' || c == '-'
}

/// How many digits `s` begins with.
pub open spec fn leading_digits(s: Seq<char>) -> nat
    decreases s.len(),
{
    if s.len() > 0 && is_digit(s[0]) {
        1 + leading_digits(s.drop_first())
    } else {
        0
    }
}

/// An exponent: `e` or `E`, a sign or none, and digits, at least one, to
/// the end.
pub open spec fn is_exponent(s: Seq<char>) -> bool {
    &&& s.len() > 0
    &&& (s[0] == 'e' || s[0] == 'E')
    &&& {
        let digits = if s.len() > 1 && is_sign(s[1]) {
            s.skip(2)
        } else {
            s.skip(1)
        };
        digits.len() > 0 && leading_digits(digits) == digits.len()
    }
}

/// A number without sign: digits with a point among, before or after them
/// or without one, at least one digit in all, and an exponent or none.
pub open spec fn is_number(s: Seq<char>) -> bool {
    let whole = leading_digits(s);
    let after = s.skip(whole as int);
    if after.len() > 0 && after[0] == '.' {
        let fraction = leading_digits(after.drop_first());
        let rest = after.skip(1 + fraction as int);
        whole + fraction > 0 && (rest.len() == 0 || is_exponent(rest))
    } else {
        whole > 0 && (after.len() == 0 || is_exponent(after))
    }
}

/// A letter without regard to its case.
pub open spec fn is_letter(c: char, lower: char, upper: char) -> bool {
    c == lower || c == upper
}

/// `inf`, `infinity` or `nan`, in any case of the letters.
pub open spec fn is_special(s: Seq<char>) -> bool {
    ||| s.len() == 3 && is_letter(s[0], 'i', 'I') && is_letter(s[1], 'n', 'N') && is_letter(
        s[2],
        'f',
        'F',
    )
    ||| s.len() == 3 && is_letter(s[0], 'n', 'N') && is_letter(s[1], 'a', 'A') && is_letter(
        s[2],
        'n',
        'N',
    )
    ||| s.len() == 8 && is_letter(s[0], 'i', 'I') && is_letter(s[1], 'n', 'N') && is_letter(
        s[2],
        'f',
        'F',
    ) && is_letter(s[3], 'i', 'I') && is_letter(s[4], 'n', 'N') && is_letter(s[5], 'i', 'I')
        && is_letter(s[6], 't', 'T') && is_letter(s[7], 'y', 'Y')
}

/// A text that reads as a number with a fraction: a sign or none, then a
/// number, `inf`, `infinity` or `nan`.
pub open spec fn is_float(s: Seq<char>) -> bool {
    let body = if s.len() > 0 && is_sign(s[0]) {
        s.drop_first()
    } else {
        s
    };
    is_special(body) || is_number(body)
}

/// A pitch that is a word of the markup.
pub open spec fn is_pitch_word(s: Seq<char>) -> bool {
    s == "default"@ || s == "x-low"@ || s == "low"@ || s == "medium"@ || s == "high"@ || s
        == "x-high"@
}

/// A rate that is a word of the markup.
pub open spec fn is_rate_word(s: Seq<char>) -> bool {
    s == "default"@ || s == "x-slow"@ || s == "slow"@ || s == "medium"@ || s == "fast"@ || s
        == "x-fast"@
}

/// `s` is a number followed by `unit`.
pub open spec fn has_unit(s: Seq<char>, unit: Seq<char>) -> bool {
    ends_with(s, unit) && is_float(s.take(s.len() - unit.len()))
}

/// The reason that is given for a text that is no pitch.
pub open spec fn invalid_pitch(arg: Seq<char>) -> Seq<char> {
    "Invalid pitch: "@ + arg + ". Please read the documentation for possible values of pitch."@
}

/// The reason that is given for a text that is no rate.
pub open spec fn invalid_rate(arg: Seq<char>) -> Seq<char> {
    "Invalid rate: "@ + arg + ". Please read the documentation for possible values of rate."@
}

/// What a text means as a pitch. A number with the unit `Hz` or `%`, a
/// signed number with the unit `st`, and a pitch word stand as they are; a
/// bare number is a fraction; anything else is no pitch.
pub open spec fn pitch_of(arg: Seq<char>) -> Result<ProsodyView, Seq<char>> {
    if has_unit(arg, "Hz"@) || has_unit(arg, "%"@) || (has_unit(arg, "st"@) && arg.len() > 0
        && is_sign(arg[0])) || is_pitch_word(arg) {
        Ok(ProsodyView::Verbatim(arg))
    } else if is_float(arg) {
        Ok(ProsodyView::Fraction(arg))
    } else {
        Err(invalid_pitch(arg))
    }
}

/// What a text means as a rate. A number with the unit `%` and a rate word
/// stand as they are; a number followed by `f` stands without the `f`; a
/// bare number is a fraction; anything else is no rate.
pub open spec fn rate_of(arg: Seq<char>) -> Result<ProsodyView, Seq<char>> {
    if has_unit(arg, "%"@) || is_rate_word(arg) {
        Ok(ProsodyView::Verbatim(arg))
    } else if has_unit(arg, "f"@) {
        Ok(ProsodyView::Verbatim(arg.take(arg.len() - 1)))
    } else if is_float(arg) {
        Ok(ProsodyView::Fraction(arg))
    } else {
        Err(invalid_rate(arg))
    }
}

fn is_digit_char(c: char) -> (digit: bool)
    ensures
        digit == is_digit(c),
{
    '0' <= c && c <= '9'
}

/// The number of digits that `s` holds from `from` on.
fn count_digits(s: &[char], from: usize) -> (count: usize)
    requires
        from <= s@.len(),
    ensures
        count == leading_digits(s@.skip(from as int)),
        from + count <= s@.len(),
{
    let n = s.len();
    let mut i: usize = from;
    while i < n && is_digit_char(s[i])
        invariant
            n == s@.len(),
            from <= i <= n,
            leading_digits(s@.skip(from as int)) == (i - from) + leading_digits(
                s@.skip(i as int),
            ),
        decreases n - i,
    {
        assert(s@.skip(i as int).drop_first() =~= s@.skip(i + 1));
        i += 1;
    }
    i - from
}

/// Whether what `s` holds from `from` on is an exponent.
fn exponent_at(s: &[char], from: usize) -> (found: bool)
    requires
        from <= s@.len(),
    ensures
        found == is_exponent(s@.skip(from as int)),
{
    let n = s.len();
    if from >= n || !(s[from] == 'e' || s[from] == 'E') {
        return false;
    }
    let ghost tail = s@.skip(from as int);
    let start = if from + 1 < n && (s[from + 1] == '+' || s[from + 1] == '-') {
        from + 2
    } else {
        from + 1
    };
    proof {
        assert(tail.skip(start - from) =~= s@.skip(start as int));
    }
    let digits = count_digits(s, start);
    digits > 0 && start + digits == n
}

/// Whether what `s` holds from `from` on is a number without sign.
fn number_at(s: &[char], from: usize) -> (found: bool)
    requires
        from <= s@.len(),
    ensures
        found == is_number(s@.skip(from as int)),
{
    let n = s.len();
    let ghost body = s@.skip(from as int);
    let whole = count_digits(s, from);
    let after = from + whole;
    proof {
        assert(body.skip(whole as int) =~= s@.skip(after as int));
    }
    if after < n && s[after] == '.' {
        proof {
            assert(s@.skip(after as int).drop_first() =~= s@.skip(after + 1));
        }
        let fraction = count_digits(s, after + 1);
        let rest = after + 1 + fraction;
        proof {
            assert(s@.skip(after as int).skip(1 + fraction) =~= s@.skip(rest as int));
        }
        whole + fraction > 0 && (rest == n || exponent_at(s, rest))
    } else {
        whole > 0 && (after == n || exponent_at(s, after))
    }
}

fn letter(c: char, lower: char, upper: char) -> (same: bool)
    ensures
        same == is_letter(c, lower, upper),
{
    c == lower || c == upper
}

/// Whether what `s` holds from `from` on is `inf`, `infinity` or `nan`.
fn special_at(s: &[char], from: usize) -> (found: bool)
    requires
        from <= s@.len(),
    ensures
        found == is_special(s@.skip(from as int)),
{
    let n = s.len() - from;
    if n == 3 {
        (letter(s[from], 'i', 'I') && letter(s[from + 1], 'n', 'N') && letter(
            s[from + 2],
            'f',
            'F',
        )) || (letter(s[from], 'n', 'N') && letter(s[from + 1], 'a', 'A') && letter(
            s[from + 2],
            'n',
            'N',
        ))
    } else if n == 8 {
        letter(s[from], 'i', 'I') && letter(s[from + 1], 'n', 'N') && letter(s[from + 2], 'f', 'F')
            && letter(s[from + 3], 'i', 'I') && letter(s[from + 4], 'n', 'N') && letter(
            s[from + 5],
            'i',
            'I',
        ) && letter(s[from + 6], 't', 'T') && letter(s[from + 7], 'y', 'Y')
    } else {
        false
    }
}

/// Whether `s` reads as a number with a fraction.
pub fn reads_as_float(s: &[char]) -> (found: bool)
    ensures
        found == is_float(s@),
{
    let from: usize = if s.len() > 0 && (s[0] == '+' || s[0] == '-') {
        1
    } else {
        0
    };
    proof {
        assert(s@.skip(0) =~= s@);
        if s@.len() > 0 {
            assert(s@.drop_first() =~= s@.skip(1));
        }
    }
    special_at(s, from) || number_at(s, from)
}

/// Whether `s` is a float.
pub fn is_float_text(s: &str) -> (found: bool)
    ensures
        found == is_float(s@),
{
    reads_as_float(to_chars(s).as_slice())
}

fn with_unit(s: &[char], unit: &[char]) -> (found: bool)
    ensures
        found == has_unit(s@, unit@),
{
    if !has_suffix(s, unit) {
        return false;
    }
    let number = slice_subrange(s, 0, s.len() - unit.len());
    assert(number@ =~= s@.take(s@.len() - unit@.len()));
    reads_as_float(number)
}

fn is_one_of(s: &[char], a: &str, b: &str, c: &str, d: &str, e: &str, f: &str) -> (found: bool)
    ensures
        found == (s@ == a@ || s@ == b@ || s@ == c@ || s@ == d@ || s@ == e@ || s@ == f@),
{
    chars_eq(s, to_chars(a).as_slice()) || chars_eq(s, to_chars(b).as_slice()) || chars_eq(
        s,
        to_chars(c).as_slice(),
    ) || chars_eq(s, to_chars(d).as_slice()) || chars_eq(s, to_chars(e).as_slice()) || chars_eq(
        s,
        to_chars(f).as_slice(),
    )
}

fn invalid(kind: &str, arg: &str, advice: &str) -> (error: ParseError)
    ensures
        error.reason@ == kind@ + arg@ + advice@,
{
    let mut reason = String::from_str(kind);
    reason.append(arg);
    reason.append(advice);
    ParseError::new(reason)
}

/// Reads a pitch.
pub fn parse_pitch(arg: &str) -> (parsed: Result<Prosody<'_>, ParseError>)
    ensures
        match parsed {
            Ok(pitch) => pitch_of(arg@) == Ok::<ProsodyView, Seq<char>>(pitch@),
            Err(error) => pitch_of(arg@) == Err::<ProsodyView, Seq<char>>(error.reason@),
        },
{
    let chars = to_chars(arg);
    let s = chars.as_slice();
    let signed = s.len() > 0 && (s[0] == '+' || s[0] == '-');
    if with_unit(s, to_chars("Hz").as_slice()) || with_unit(s, to_chars("%").as_slice()) || (
    with_unit(s, to_chars("st").as_slice()) && signed) || is_one_of(
        s,
        "default",
        "x-low",
        "low",
        "medium",
        "high",
        "x-high",
    ) {
        Ok(Prosody::Verbatim(arg))
    } else if reads_as_float(s) {
        Ok(Prosody::Fraction(arg))
    } else {
        Err(
            invalid(
                "Invalid pitch: ",
                arg,
                ". Please read the documentation for possible values of pitch.",
            ),
        )
    }
}

/// Reads a rate.
pub fn parse_rate(arg: &str) -> (parsed: Result<Prosody<'_>, ParseError>)
    ensures
        match parsed {
            Ok(rate) => rate_of(arg@) == Ok::<ProsodyView, Seq<char>>(rate@),
            Err(error) => rate_of(arg@) == Err::<ProsodyView, Seq<char>>(error.reason@),
        },
{
    proof {
        reveal_strlit("f");
    }
    let chars = to_chars(arg);
    let s = chars.as_slice();
    if with_unit(s, to_chars("%").as_slice()) || is_one_of(
        s,
        "default",
        "x-slow",
        "slow",
        "medium",
        "fast",
        "x-fast",
    ) {
        Ok(Prosody::Verbatim(arg))
    } else if with_unit(s, to_chars("f").as_slice()) {
        let len = s.len();
        let number = arg.substring_char(0, len - 1);
        assert(number@ =~= arg@.take(arg@.len() - 1));
        Ok(Prosody::Verbatim(number))
    } else if reads_as_float(s) {
        Ok(Prosody::Fraction(arg))
    } else {
        Err(
            invalid(
                "Invalid rate: ",
                arg,
                ". Please read the documentation for possible values of rate.",
            ),
        )
    }
}

} // verus!
