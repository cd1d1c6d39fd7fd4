//! The timestamp of a request: the current time in UTC, written by `chrono`
//! with milliseconds and a closing `Z`.

use vstd::prelude::*;

verus! {

/// A decimal digit.
pub open spec fn is_digit(c: char) -> bool {
    '0' <= c <= '9'
}

/// Two decimal digits at `at`.
pub open spec fn two_digits(text: Seq<char>, at: int) -> bool {
    is_digit(text[at]) && is_digit(text[at + 1])
}

/// `-MM-DDTHH:MM:SS.mmmZ`: what follows the year in a timestamp, 20
/// characters that start at `at`.
pub open spec fn is_month_to_zone(text: Seq<char>, at: int) -> bool {
    &&& text[at] == '-'
    &&& two_digits(text, at + 1)
    &&& text[at + 3] == '-'
    &&& two_digits(text, at + 4)
    &&& text[at + 6] == 'T'
    &&& two_digits(text, at + 7)
    &&& text[at + 9] == ':'
    &&& two_digits(text, at + 10)
    &&& text[at + 12] == ':'
    &&& two_digits(text, at + 13)
    &&& text[at + 15] == '.'
    &&& two_digits(text, at + 16)
    &&& is_digit(text[at + 18])
    &&& text[at + 19] == 'Z'
}

/// The year of a timestamp: four digits, or `+` and five digits or more.
pub open spec fn is_year(year: Seq<char>) -> bool {
    ||| year.len() == 4 && forall|i: int| 0 <= i < 4 ==> is_digit(#[trigger] year[i])
    ||| year.len() >= 6 && year[0] == '+' && forall|i: int|
        1 <= i < year.len() ==> is_digit(#[trigger] year[i])
}

/// An RFC 3339 date and time in UTC with exactly three digits of fractional
/// seconds and a closing `Z`, such as `2024-01-01T00:00:00.123Z`.
pub open spec fn is_utc_timestamp(text: Seq<char>) -> bool {
    &&& text.len() >= 24
    &&& is_year(text.subrange(0, text.len() - 20))
    &&& is_month_to_zone(text, text.len() - 20)
}

/// Trusted: `chrono::Utc::now`, written with
/// `to_rfc3339_opts(chrono::SecondsFormat::Millis, true)`.
///
/// What comes back depends on the clock, so the contract states the shape
/// only: year, month, day, `T`, hour, minute, second, a point, three digits
/// and `Z`. The year has four digits up to 9999 and a `+` before it from
/// 10000 on. `Utc::now` panics where the clock stands before 1970.
#[verifier::external_body]
pub(crate) fn utc_timestamp() -> (text: String)
    ensures
        is_utc_timestamp(text@),
{
    chrono::Utc::now().to_rfc3339_opts(chrono::SecondsFormat::Millis, true)
}

} // verus!
