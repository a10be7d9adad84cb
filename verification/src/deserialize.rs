//! The texts of a response, read into numbers and dates.

use crate::datetime::{Date, DateTime};
use crate::decimal::{decimal_of, Decimal, DecimalValue};
use crate::error::{outcome, Error, ErrorView, Invalid, InvalidView};
use chrono::{Datelike, NaiveDate, NaiveDateTime, Timelike};
use vstd::prelude::*;
use vstd::string::*;

verus! {

/// The format of a day with its time, in the notation of `chrono`.
pub const DATETIME_FORMAT: &'static str = "%Y-%m-%d %H:%M:%S";

/// The format of a day alone, in the notation of `chrono`.
pub const DATE_FORMAT: &'static str = "%Y-%m-%d";

/// The one time zone in which a response may speak: its dates are taken as
/// dates of this zone, and a response that names another is refused.
pub const UTC: &'static str = "UTC";

/// The moment that `chrono::NaiveDateTime::parse_from_str` reads from `text`
/// by `format`; `None` where it refuses `text`.
pub uninterp spec fn chrono_datetime(text: Seq<char>, format: Seq<char>) -> Option<DateTime>;

/// The day that `chrono::NaiveDate::parse_from_str` reads from `text` by
/// `format`; `None` where it refuses `text`.
pub uninterp spec fn chrono_date(text: Seq<char>, format: Seq<char>) -> Option<Date>;

/// Calls `chrono::NaiveDateTime::parse_from_str`. Nothing is proved of the
/// call: its outcome is given the name `chrono_datetime`, and the fields of
/// a moment that it reads are taken to lie in the ranges that `chrono`
/// documents for them.
#[verifier::external_body]
fn parse_datetime(text: &str, format: &str) -> (out: Option<DateTime>)
    ensures
        out == chrono_datetime(text@, format@),
        out matches Some(moment) ==> moment.wf(),
{
    let moment = NaiveDateTime::parse_from_str(text, format).ok()?;
    Some(
        DateTime {
            year: moment.year(),
            month: moment.month(),
            day: moment.day(),
            hour: moment.hour(),
            minute: moment.minute(),
            second: moment.second(),
            nanosecond: moment.nanosecond(),
        },
    )
}

/// Calls `chrono::NaiveDate::parse_from_str`. Nothing is proved of the call:
/// its outcome is given the name `chrono_date`, and the fields of a day that
/// it reads are taken to lie in the ranges that `chrono` documents for them.
#[verifier::external_body]
fn parse_date(text: &str, format: &str) -> (out: Option<Date>)
    ensures
        out == chrono_date(text@, format@),
        out matches Some(day) ==> day.wf(),
{
    let day = NaiveDate::parse_from_str(text, format).ok()?;
    Some(Date { year: day.year(), month: day.month(), day: day.day() })
}

/// The number that a numeric field holds, or the error for its text.
pub open spec fn number_of(text: Seq<char>) -> Result<DecimalValue, ErrorView> {
    match decimal_of(text) {
        Some(value) => Ok(value),
        None => Err(ErrorView::ValidationError(InvalidView::Number(text))),
    }
}

/// Reads the decimal number that a numeric field holds as text.
pub fn from_str(text: &str) -> (out: Result<Decimal, Error>)
    ensures
        outcome(out) == number_of(text@),
        out matches Ok(decimal) ==> decimal.wf(),
{
    match Decimal::parse(text) {
        Some(decimal) => Ok(decimal),
        None => Err(Error::ValidationError(Invalid::Number(text.to_owned()))),
    }
}

/// The moment that `text` holds as a day with its time.
pub open spec fn datetime_of(text: Seq<char>) -> Option<DateTime> {
    chrono_datetime(text, DATETIME_FORMAT@)
}

/// Reads a moment that is written as a day with its time, and taken as UTC.
pub fn to_datetime(text: &str) -> (out: Option<DateTime>)
    ensures
        out == datetime_of(text@),
        out matches Some(moment) ==> moment.wf(),
{
    parse_datetime(text, DATETIME_FORMAT)
}

/// The first moment of a day, where there is one.
pub open spec fn midnight_of(day: Option<Date>) -> Option<DateTime> {
    match day {
        Some(day) => Some(DateTime::midnight(day)),
        None => None,
    }
}

/// The first moment of the day that `text` holds.
pub open spec fn day_of(text: Seq<char>) -> Option<DateTime> {
    midnight_of(chrono_date(text, DATE_FORMAT@))
}

/// Reads a day, and gives its first moment, taken as UTC.
pub fn to_date(text: &str) -> (out: Option<DateTime>)
    ensures
        out == day_of(text@),
        out matches Some(moment) ==> moment.wf(),
{
    match parse_date(text, DATE_FORMAT) {
        Some(day) => Some(DateTime::at_midnight(day)),
        None => None,
    }
}

/// The moment that `text` holds: a day with its time or, where it is not
/// that, the first moment of a day.
pub open spec fn moment_of(text: Seq<char>) -> Option<DateTime> {
    match datetime_of(text) {
        Some(moment) => Some(moment),
        None => day_of(text),
    }
}

/// Reads a moment that is written as a day with its time, or as a day
/// alone, and taken as UTC.
pub fn to_moment(text: &str) -> (out: Option<DateTime>)
    ensures
        out == moment_of(text@),
        out matches Some(moment) ==> moment.wf(),
{
    match to_datetime(text) {
        Some(moment) => Some(moment),
        None => to_date(text),
    }
}

} // verus!
