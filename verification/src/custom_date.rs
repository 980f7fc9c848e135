//! The two texts of a date: eight digits where it is read, and year, month and day
//! with hyphens between them where it is written.

use crate::date::{is_calendar_date, Date};
use vstd::prelude::*;

verus! {

/// The character of a decimal digit.
pub open spec fn digit(n: int) -> char
    recommends
        0 <= n <= 9,
{
    seq!['0', '1', '2', '3', '4', '5', '6', '7', '8', '9'][n]
}

/// A number below 100 in two digits, padded with a zero.
pub open spec fn two_digits(n: int) -> Seq<char> {
    seq![digit(n / 10), digit(n % 10)]
}

/// A number below 10000 in four digits, padded with zeros.
pub open spec fn four_digits(n: int) -> Seq<char> {
    seq![digit(n / 1000), digit(n / 100 % 10), digit(n / 10 % 10), digit(n % 10)]
}

/// The eight digits of a date of the years 0 to 9999: `20190730`.
pub open spec fn compact_text(year: int, month: int, day: int) -> Seq<char> {
    four_digits(year) + two_digits(month) + two_digits(day)
}

/// The hyphenated text of a date of the years 0 to 9999: `2019-07-30`.
pub open spec fn hyphenated_text(year: int, month: int, day: int) -> Seq<char> {
    four_digits(year) + seq!['-'] + two_digits(month) + seq!['-'] + two_digits(day)
}

/// Whether `text` is the eight digits of the given day, a calendar date of the years 0
/// to 9999.
pub open spec fn is_compact_text_of(text: Seq<char>, year: int, month: int, day: int) -> bool {
    is_calendar_date(year, month, day) && 0 <= year <= 9999 && text == compact_text(year, month, day)
}

/// Two digits that are one character are one digit.
proof fn lemma_digits_differ(a: int, b: int)
    requires
        0 <= a <= 9,
        0 <= b <= 9,
        digit(a) == digit(b),
    ensures
        a == b,
{
    let digits = seq!['0', '1', '2', '3', '4', '5', '6', '7', '8', '9'];
    assert(forall|i: int, j: int| 0 <= i < j < 10 ==> digits[i] != digits[j]);
}

/// The eight digits of a date tell it apart from every other: two calendar dates of the
/// years 0 to 9999 with the same digits are the same day. So a date that is written in
/// digits can be read back.
pub proof fn lemma_compact_text_tells_dates_apart(one: (int, int, int), other: (int, int, int))
    requires
        is_calendar_date(one.0, one.1, one.2),
        is_calendar_date(other.0, other.1, other.2),
        0 <= one.0 <= 9999,
        0 <= other.0 <= 9999,
        compact_text(one.0, one.1, one.2) == compact_text(other.0, other.1, other.2),
    ensures
        one == other,
{
    let a = compact_text(one.0, one.1, one.2);
    let b = compact_text(other.0, other.1, other.2);
    assert(a[0] == b[0] && a[1] == b[1] && a[2] == b[2] && a[3] == b[3]);
    assert(a[4] == b[4] && a[5] == b[5] && a[6] == b[6] && a[7] == b[7]);
    lemma_digits_differ(one.0 / 1000, other.0 / 1000);
    lemma_digits_differ(one.0 / 100 % 10, other.0 / 100 % 10);
    lemma_digits_differ(one.0 / 10 % 10, other.0 / 10 % 10);
    lemma_digits_differ(one.0 % 10, other.0 % 10);
    lemma_digits_differ(one.1 / 10, other.1 / 10);
    lemma_digits_differ(one.1 % 10, other.1 % 10);
    lemma_digits_differ(one.2 / 10, other.2 / 10);
    lemma_digits_differ(one.2 % 10, other.2 % 10);
}

/// The hyphenated text of a date tells it apart from every other: two calendar dates of
/// the years 0 to 9999 that are written alike are the same day.
pub proof fn lemma_hyphenated_text_tells_dates_apart(one: (int, int, int), other: (int, int, int))
    requires
        is_calendar_date(one.0, one.1, one.2),
        is_calendar_date(other.0, other.1, other.2),
        0 <= one.0 <= 9999,
        0 <= other.0 <= 9999,
        hyphenated_text(one.0, one.1, one.2) == hyphenated_text(other.0, other.1, other.2),
    ensures
        one == other,
{
    let a = hyphenated_text(one.0, one.1, one.2);
    let b = hyphenated_text(other.0, other.1, other.2);
    assert(a[0] == b[0] && a[1] == b[1] && a[2] == b[2] && a[3] == b[3]);
    assert(a[5] == b[5] && a[6] == b[6] && a[8] == b[8] && a[9] == b[9]);
    lemma_digits_differ(one.0 / 1000, other.0 / 1000);
    lemma_digits_differ(one.0 / 100 % 10, other.0 / 100 % 10);
    lemma_digits_differ(one.0 / 10 % 10, other.0 / 10 % 10);
    lemma_digits_differ(one.0 % 10, other.0 % 10);
    lemma_digits_differ(one.1 / 10, other.1 / 10);
    lemma_digits_differ(one.1 % 10, other.1 % 10);
    lemma_digits_differ(one.2 / 10, other.2 / 10);
    lemma_digits_differ(one.2 % 10, other.2 % 10);
}

/// What chrono writes for a calendar date under the format `%Y-%m-%d`.
pub uninterp spec fn formatted_date(year: int, month: int, day: int) -> Seq<char>;

/// The date that chrono reads from a text under the format `%Y%m%d`, as year, month and
/// day, or `None` where it reads none.
pub uninterp spec fn parsed_date(text: Seq<char>) -> Option<(int, int, int)>;

/// A text from which no date can be read.
#[derive(Clone, Copy, Debug, PartialEq, Eq)]
pub struct MalformedDate;

/// The error of chrono's parser, which is handed on unread.
#[verifier::external_type_specification]
#[verifier::external_body]
pub struct ExParseError(chrono::ParseError);

/// The text of a date as it is written out: `%Y-%m-%d`, which for the years 0 to 9999 is
/// four digits, two digits and two digits with hyphens between them.
pub fn serialize(date: &Date) -> (text: String)
    ensures
        text@ == formatted_date(date@.0, date@.1, date@.2),
        0 <= date@.0 <= 9999 ==> text@ == hyphenated_text(date@.0, date@.1, date@.2),
{
    proof {
        use_type_invariant(date);
    }
    format_hyphenated(date.year(), date.month(), date.day())
}

/// The date that a text holds under `%Y%m%d`. The eight digits of a calendar date of the
/// years 0 to 9999 always give that date.
pub fn deserialize(text: &str) -> (date: Result<Date, MalformedDate>)
    ensures
        date is Ok <==> parsed_date(text@) is Some,
        date matches Ok(d) ==> parsed_date(text@) == Some(d@),
        forall|year: int, month: int, day: int| #[trigger]
            is_compact_text_of(text@, year, month, day) ==> date is Ok,
        forall|year: int, month: int, day: int| #[trigger]
            is_compact_text_of(text@, year, month, day) ==> (date matches Ok(d) ==> d@ == (
                year,
                month,
                day,
            )),
{
    match parse_compact(text) {
        Ok((year, month, day)) => match Date::from_ymd_opt(year, month, day) {
            Some(date) => Ok(date),
            None => Err(MalformedDate),
        },
        Err(_) => Err(MalformedDate),
    }
}

/// Calls `chrono::NaiveDate::format` with `%Y-%m-%d` on the given day and collects the
/// text. The contract names that text and claims what chrono documents for years of
/// up to four digits: the year padded with zeros to four digits, the month and the day
/// to two, with a hyphen between them.
#[verifier::external_body]
fn format_hyphenated(year: i32, month: u32, day: u32) -> (text: String)
    requires
        is_calendar_date(year as int, month as int, day as int),
    ensures
        text@ == formatted_date(year as int, month as int, day as int),
        0 <= year <= 9999 ==> text@ == hyphenated_text(year as int, month as int, day as int),
{
    match chrono::NaiveDate::from_ymd_opt(year, month, day) {
        Some(date) => date.format("%Y-%m-%d").to_string(),
        None => String::new(),
    }
}

/// Calls `chrono::NaiveDate::parse_from_str` with `%Y%m%d` and takes the date apart.
/// The contract names the outcome and claims of it that a date which chrono gives is a
/// day of the calendar within chrono's years, and that the eight digits of such a day
/// of the years 0 to 9999 are read as that day.
#[verifier::external_body]
fn parse_compact(text: &str) -> (date: Result<(i32, u32, u32), chrono::ParseError>)
    ensures
        date is Ok <==> parsed_date(text@) is Some,
        date matches Ok(d) ==> parsed_date(text@) == Some((d.0 as int, d.1 as int, d.2 as int)),
        date matches Ok(d) ==> is_calendar_date(d.0 as int, d.1 as int, d.2 as int),
        forall|year: int, month: int, day: int| #[trigger]
            is_compact_text_of(text@, year, month, day) ==> date is Ok,
        forall|year: int, month: int, day: int| #[trigger]
            is_compact_text_of(text@, year, month, day) ==> (date matches Ok(d) ==> (
                d.0 as int,
                d.1 as int,
                d.2 as int,
            ) == (year, month, day)),
{
    let date = chrono::NaiveDate::parse_from_str(text, "%Y%m%d")?;
    Ok((chrono::Datelike::year(&date), chrono::Datelike::month(&date), chrono::Datelike::day(&date)))
}

} // verus!
