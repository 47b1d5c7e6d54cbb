//! What the calendar says of a date: read off the `chrono` crate.

use vstd::prelude::*;

verus! {

/// The day of the year, counted from 1, of the moment that `text` names when
/// read as a timestamp with a zone offset and moved to UTC; `None` where
/// `text` is no such timestamp. It stands for what `chrono` computes.
pub uninterp spec fn timestamp_ordinal(text: Seq<char>) -> Option<u32>;

/// The weekday of a calendar date as days after Monday (Monday is 0, Sunday
/// is 6); `None` where the calendar has no such date. It stands for what
/// `chrono` computes.
pub uninterp spec fn days_from_monday(year: int, month: int, day: int) -> Option<u32>;

/// The first year of which `chrono` holds dates.
pub const MIN_YEAR: i32 = -262143;

/// The last year of which `chrono` holds dates.
pub const MAX_YEAR: i32 = 262142;

/// Parses `text` with `str::parse::<chrono::DateTime<chrono::Utc>>` and reads
/// the day of the year off the result with `Datelike::ordinal`.
///
/// Believed, not proved: the result is a function of the text alone, named
/// [`timestamp_ordinal`], and a day of the year lies between 1 and 366.
#[verifier::external_body]
pub(crate) fn parse_timestamp_ordinal(text: &str) -> (day: Option<u32>)
    ensures
        day == timestamp_ordinal(text@),
        day matches Some(d) ==> 1 <= d <= 366,
{
    match text.parse::<chrono::DateTime<chrono::Utc>>() {
        Ok(moment) => Some(chrono::Datelike::ordinal(&moment)),
        Err(_) => None,
    }
}

/// Builds the date with `chrono::NaiveDate::from_ymd_opt` and reads its
/// weekday with `Datelike::weekday` and `Weekday::num_days_from_monday`.
///
/// Believed, not proved: the result is a function of the three numbers alone,
/// named [`days_from_monday`]; a weekday number is at most 6; and the first
/// of January exists in every year from [`MIN_YEAR`] to [`MAX_YEAR`].
#[verifier::external_body]
pub(crate) fn weekday_of_date(year: i32, month: u32, day: u32) -> (weekday: Option<u32>)
    ensures
        weekday == days_from_monday(year as int, month as int, day as int),
        weekday matches Some(d) ==> d <= 6,
        month == 1 && day == 1 && MIN_YEAR <= year <= MAX_YEAR ==> weekday is Some,
{
    match chrono::NaiveDate::from_ymd_opt(year, month, day) {
        Some(date) => Some(chrono::Datelike::weekday(&date).num_days_from_monday()),
        None => None,
    }
}

/// Reads the clock with `chrono::Utc::now` and hands back the moment as text
/// (`DateTime::to_string`) and its year (`Datelike::year`).
///
/// Believed, not proved: the year of a moment that `chrono` holds lies
/// between [`MIN_YEAR`] and [`MAX_YEAR`]. Nothing is said of the text: two
/// calls give two moments.
#[verifier::external_body]
pub(crate) fn utc_now() -> (now: (String, i32))
    ensures
        MIN_YEAR <= now.1 <= MAX_YEAR,
{
    let moment = chrono::Utc::now();
    (moment.to_string(), chrono::Datelike::year(&moment))
}

} // verus!
