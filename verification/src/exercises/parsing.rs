//! Reading a number out of a file's text: the text is trimmed of surrounding
//! white space, then parsed as a signed 32-bit decimal integer.
//!
//! Reading the file is left to the caller, which hands over the outcome of
//! the read.

use std::num::IntErrorKind;
use vstd::prelude::*;
use crate::text::{decimal, digit_char};

verus! {

#[verifier::external_type_specification]
#[verifier::external_body]
pub struct ExParseIntError(std::num::ParseIntError);

#[verifier::external_type_specification]
#[verifier::external_body]
pub struct ExIoError(std::io::Error);

/// Whether `c` has the Unicode `White_Space` property.
pub open spec fn is_white_space(c: char) -> bool {
    ||| '\u{9}' <= c <= '\u{d}'
    ||| c == ' '
    ||| c == '\u{85}'
    ||| c == '\u{a0}'
    ||| c == '\u{1680}'
    ||| '\u{2000}' <= c <= '\u{200a}'
    ||| c == '\u{2028}'
    ||| c == '\u{2029}'
    ||| c == '\u{202f}'
    ||| c == '\u{205f}'
    ||| c == '\u{3000}'
}

/// `s` without its leading white space.
pub open spec fn trim_start(s: Seq<char>) -> Seq<char>
    decreases s.len(),
{
    if s.len() > 0 && is_white_space(s[0]) {
        trim_start(s.drop_first())
    } else {
        s
    }
}

/// `s` without its trailing white space.
pub open spec fn trim_end(s: Seq<char>) -> Seq<char>
    decreases s.len(),
{
    if s.len() > 0 && is_white_space(s.last()) {
        trim_end(s.drop_last())
    } else {
        s
    }
}

/// `s` without its leading and trailing white space.
pub open spec fn trimmed(s: Seq<char>) -> Seq<char> {
    trim_end(trim_start(s))
}

proof fn lemma_trim_start_front(s: Seq<char>)
    ensures
        trim_start(s).len() == 0 || !is_white_space(trim_start(s)[0]),
    decreases s.len(),
{
    if s.len() > 0 && is_white_space(s[0]) {
        lemma_trim_start_front(s.drop_first());
    }
}

proof fn lemma_trim_end_prefix(s: Seq<char>)
    ensures
        trim_end(s).len() <= s.len(),
        trim_end(s) == s.take(trim_end(s).len() as int),
        trim_end(s).len() == 0 || !is_white_space(trim_end(s).last()),
    decreases s.len(),
{
    if s.len() > 0 && is_white_space(s.last()) {
        lemma_trim_end_prefix(s.drop_last());
        assert(s.drop_last().take(trim_end(s).len() as int) =~= s.take(trim_end(s).len() as int));
    } else {
        assert(s.take(s.len() as int) =~= s);
    }
}

/// Trimming twice is trimming once: a text and its trimmed form are read
/// the same way.
pub proof fn lemma_trimmed_idempotent(s: Seq<char>)
    ensures
        trimmed(trimmed(s)) == trimmed(s),
{
    let t = trimmed(s);
    lemma_trim_start_front(s);
    lemma_trim_end_prefix(trim_start(s));
    if t.len() > 0 {
        assert(t[0] == trim_start(s)[0]);
    }
    assert(trim_start(t) == t);
    lemma_trim_end_prefix(t);
    if t.len() > 0 {
        assert(trim_end(t) == t);
    }
}

/// Whether `c` is one of the ASCII digits `0` to `9`.
pub open spec fn is_digit(c: char) -> bool {
    '0' <= c <= '9'
}

/// Whether `s` is a non-empty run of ASCII digits.
pub open spec fn is_digits(s: Seq<char>) -> bool {
    s.len() > 0 && forall|i: int| 0 <= i < s.len() ==> is_digit(#[trigger] s[i])
}

/// The value of a run of ASCII digits read in base 10.
pub open spec fn digits_value(s: Seq<char>) -> nat
    decreases s.len(),
{
    if s.len() == 0 {
        0
    } else {
        digits_value(s.drop_last()) * 10 + (s.last() as nat - '0' as nat) as nat
    }
}

/// The integer written by `s` in base 10, with an optional leading `+` or
/// `-`, if `s` has that form.
pub open spec fn signed_decimal(s: Seq<char>) -> Option<int> {
    if s.len() > 0 && s[0] == '-' && is_digits(s.drop_first()) {
        Some(-digits_value(s.drop_first()))
    } else if s.len() > 0 && s[0] == '+' && is_digits(s.drop_first()) {
        Some(digits_value(s.drop_first()) as int)
    } else if is_digits(s) {
        Some(digits_value(s) as int)
    } else {
        None
    }
}

/// The decimal text of an `i32`, with a `-` before the digits of a negative number.
pub open spec fn i32_text(n: i32) -> Seq<char> {
    if n < 0 {
        seq!['-'] + decimal((-n) as nat)
    } else {
        decimal(n as nat)
    }
}

/// The decimal notation of a number is a run of digits that reads back as
/// that number.
pub proof fn lemma_decimal_is_digits(k: nat)
    ensures
        is_digits(decimal(k)),
        digits_value(decimal(k)) == k,
    decreases k,
{
    let d = decimal(k);
    assert(digit_char(k % 10) as int == '0' as int + k % 10);
    if k < 10 {
        assert(d.drop_last() =~= Seq::<char>::empty());
        assert(digits_value(d.drop_last()) == 0);
        assert(d[0] == digit_char(k));
        assert(d.last() == digit_char(k));
        assert(k % 10 == k);
    } else {
        lemma_decimal_is_digits(k / 10);
        assert(d.drop_last() =~= decimal(k / 10));
        assert(d.last() == digit_char(k % 10));
        assert(digits_value(d) == digits_value(decimal(k / 10)) * 10 + k % 10);
        assert(k == (k / 10) * 10 + k % 10);
        assert forall|i: int| 0 <= i < d.len() implies is_digit(#[trigger] d[i]) by {
            if i < d.len() - 1 {
                assert(d[i] == decimal(k / 10)[i]);
            }
        }
    }
}

/// A text reads as an `i32` only if it is an optional sign followed by a
/// non-empty run of digits whose value, with that sign, is the number read;
/// in particular an empty text never does.
pub proof fn lemma_parsed_i32_shape(s: Seq<char>)
    ensures
        parsed_i32(s) is Some ==> {
            let (negative, digits) = split_sign(s);
            &&& s.len() > 0
            &&& is_digits(digits)
            &&& parsed_i32(s)->0 == (if negative {
                -(digits_value(digits) as int)
            } else {
                digits_value(digits) as int
            })
        },
{
    if s.len() > 0 && is_digits(s) {
        assert(is_digit(s[0]));
    }
}

/// Parsing the decimal text of an `i32` gives the number back.
pub proof fn lemma_parse_round_trip(n: i32)
    ensures
        parsed_i32(i32_text(n)) == Some(n),
{
    let s = i32_text(n);
    if n < 0 {
        lemma_decimal_is_digits((-n) as nat);
        assert(s.drop_first() =~= decimal((-n) as nat));
        assert(s[0] == '-');
    } else {
        lemma_decimal_is_digits(n as nat);
        assert(is_digit(s[0]));
    }
}

/// The `i32` that `s` denotes, if `s` is a signed decimal within the range of `i32`.
pub open spec fn parsed_i32(s: Seq<char>) -> Option<i32> {
    match signed_decimal(s) {
        Some(v) => if i32::MIN <= v <= i32::MAX {
            Some(v as i32)
        } else {
            None
        },
        None => None,
    }
}

/// The sign and the rest of `s`: `(true, rest)` after a leading `-`,
/// `(false, rest)` after a leading `+`, `(false, s)` otherwise.
pub open spec fn split_sign(s: Seq<char>) -> (bool, Seq<char>) {
    if s.len() > 0 && s[0] == '-' {
        (true, s.drop_first())
    } else if s.len() > 0 && s[0] == '+' {
        (false, s.drop_first())
    } else {
        (false, s)
    }
}

/// The longest run of ASCII digits at the start of `s`.
pub open spec fn leading_digits(s: Seq<char>) -> Seq<char>
    decreases s.len(),
{
    if s.len() > 0 && is_digit(s[0]) {
        seq![s[0]] + leading_digits(s.drop_first())
    } else {
        Seq::empty()
    }
}

/// Why a text is not an `i32`, as the standard library classifies it.
#[derive(PartialEq, Eq, Structural, Clone, Copy, Debug)]
pub enum ParseFailure {
    /// The text is empty.
    Empty,
    /// The text holds a character that is not a digit where one is expected.
    InvalidDigit,
    /// The number is above `i32::MAX`.
    PosOverflow,
    /// The number is below `i32::MIN`.
    NegOverflow,
    /// Any other reason the standard library may report.
    Other,
}

/// Whether `kind` is the reason that the standard library gives for failing
/// to read `s` as an `i32`, where `s` is not one:
/// - an empty text is `Empty`;
/// - a signed decimal out of range is `PosOverflow` or `NegOverflow` by its sign;
/// - any other text is `InvalidDigit` when the number written by the digits
///   at its start (after the sign) is within range; when that number is
///   already out of range, the overflow of its sign may be reported instead.
pub open spec fn failure_of(s: Seq<char>, kind: ParseFailure) -> bool {
    if s.len() == 0 {
        kind == ParseFailure::Empty
    } else {
        match signed_decimal(s) {
            Some(v) => if v > i32::MAX {
                kind == ParseFailure::PosOverflow
            } else {
                kind == ParseFailure::NegOverflow
            },
            None => {
                let negative = split_sign(s).0;
                let magnitude = digits_value(leading_digits(split_sign(s).1)) as int;
                let value = if negative { -magnitude } else { magnitude };
                let overflow = if negative {
                    ParseFailure::NegOverflow
                } else {
                    ParseFailure::PosOverflow
                };
                if i32::MIN <= value <= i32::MAX {
                    kind == ParseFailure::InvalidDigit
                } else {
                    kind == ParseFailure::InvalidDigit || kind == overflow
                }
            },
        }
    }
}

/// A failure to read an `i32`: its reason, and the standard library's error.
#[derive(Debug)]
pub struct ParseError {
    pub kind: ParseFailure,
    pub source: std::num::ParseIntError,
}

/// `str::trim`: the documentation of `std` says that it removes leading and
/// trailing white space as defined by the Unicode `White_Space` property;
/// this is what the contract states.
#[verifier::external_body]
fn trim_str<'a>(s: &'a str) -> (r: &'a str)
    ensures
        r@ == trimmed(s@),
{
    s.trim()
}

/// The reason that `str::parse::<i32>` gives for failing on `s`.
pub uninterp spec fn i32_parse_failure(s: Seq<char>) -> ParseFailure;

/// The error that `str::parse::<i32>` returns on `s`.
pub uninterp spec fn i32_parse_error(s: Seq<char>) -> std::num::ParseIntError;

/// The text that a `ParseIntError` displays.
pub uninterp spec fn parse_error_display(e: std::num::ParseIntError) -> Seq<char>;

/// `str::parse::<i32>`, with the error's `IntErrorKind` carried next to it:
/// the documentation of `i32::from_str` says that the string must be an
/// optional `+` or `-` sign followed by digits and that the value must fit,
/// and that of `IntErrorKind` says which kind an empty string, an invalid
/// character and a value too big or too small give.  Where a text has both an
/// invalid character and, before it, digits whose value is out of range, the
/// documentation does not say which of the two is reported, and neither does
/// the contract; it does say that the kind and the error are functions of
/// the text alone, named `i32_parse_failure` and `i32_parse_error`.
#[verifier::external_body]
fn parse_i32(s: &str) -> (r: Result<i32, ParseError>)
    ensures
        match r {
            Ok(v) => parsed_i32(s@) == Some(v),
            Err(e) => {
                &&& parsed_i32(s@) is None
                &&& e.kind == i32_parse_failure(s@)
                &&& failure_of(s@, e.kind)
                &&& e.source == i32_parse_error(s@)
            },
        },
{
    match s.parse::<i32>() {
        Ok(v) => Ok(v),
        Err(e) => {
            let kind = match e.kind() {
                IntErrorKind::Empty => ParseFailure::Empty,
                IntErrorKind::InvalidDigit => ParseFailure::InvalidDigit,
                IntErrorKind::PosOverflow => ParseFailure::PosOverflow,
                IntErrorKind::NegOverflow => ParseFailure::NegOverflow,
                _ => ParseFailure::Other,
            };
            Err(ParseError { kind, source: e })
        },
    }
}

/// Parses `input` as a signed 32-bit decimal integer.
pub fn parse_number(input: &str) -> (r: Result<i32, ParseError>)
    ensures
        match r {
            Ok(v) => parsed_i32(input@) == Some(v),
            Err(e) => {
                &&& parsed_i32(input@) is None
                &&& e.kind == i32_parse_failure(input@)
                &&& failure_of(input@, e.kind)
                &&& e.source == i32_parse_error(input@)
            },
        },
{
    parse_i32(input)
}

/// Parses the text of a file: white space around the number is ignored.
pub fn parse_trimmed(content: &str) -> (r: Result<i32, ParseError>)
    ensures
        match r {
            Ok(v) => parsed_i32(trimmed(content@)) == Some(v),
            Err(e) => {
                &&& parsed_i32(trimmed(content@)) is None
                &&& e.kind == i32_parse_failure(trimmed(content@))
                &&& failure_of(trimmed(content@), e.kind)
                &&& e.source == i32_parse_error(trimmed(content@))
            },
        },
{
    parse_number(trim_str(content))
}

/// The outcome of reading a number from a text depends only on the trimmed
/// text: a text and its trimmed form parse to the same value, or fail for the
/// same reasons.
pub proof fn lemma_outcome_depends_on_trimmed_text(c1: Seq<char>, c2: Seq<char>)
    requires
        trimmed(c1) == trimmed(c2) || c2 == trimmed(c1),
    ensures
        parsed_i32(trimmed(c1)) == parsed_i32(trimmed(c2)),
        forall|k: ParseFailure| failure_of(trimmed(c1), k) == failure_of(trimmed(c2), k),
        i32_parse_failure(trimmed(c1)) == i32_parse_failure(trimmed(c2)),
        i32_parse_error(trimmed(c1)) == i32_parse_error(trimmed(c2)),
{
    lemma_trimmed_idempotent(c1);
}

/// Why a number could not be read from a file.
#[derive(Debug)]
pub enum AppError {
    /// The text was not a number.
    Parse(ParseError),
    /// The file could not be read.
    Io(std::io::Error),
}

/// The number written in a file, given the outcome of reading it: a failed
/// read is reported as such, and text that is not a number as a parse error.
pub fn read_and_parse(content: Result<String, std::io::Error>) -> (r: Result<i32, AppError>)
    ensures
        match content {
            Err(e) => r == Err::<i32, AppError>(AppError::Io(e)),
            Ok(text) => match parsed_i32(trimmed(text@)) {
                Some(v) => r == Ok::<i32, AppError>(v),
                None => r matches Err(AppError::Parse(e)) && {
                    &&& e.kind == i32_parse_failure(trimmed(text@))
                    &&& failure_of(trimmed(text@), e.kind)
                    &&& e.source == i32_parse_error(trimmed(text@))
                },
            },
        },
{
    match content {
        Err(e) => Err(AppError::Io(e)),
        Ok(text) => match parse_trimmed(text.as_str()) {
            Ok(v) => Ok(v),
            Err(e) => Err(AppError::Parse(e)),
        },
    }
}

} // verus!
