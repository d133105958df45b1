use chrono::{DateTime, Datelike, NaiveDate, Utc};
use std::fmt::Write;
use std::time::{SystemTime, UNIX_EPOCH};
use vstd::prelude::*;

verus! {

/// Day number of the earliest date the calendar library represents
/// (January 1 of year -262143), counting January 1 of year 1 as day 1.
pub const MIN_DAY: i32 = -95_746_129;

/// Day number of the latest date the calendar library represents
/// (December 31 of year 262142).
pub const MAX_DAY: i32 = 95_745_399;

/// strftime-style pattern of a snapshot directory's name.
pub const SNAPSHOT_NAME_FORMAT: &'static str = "%Y%m%d";

/// True when `day` names a date that the calendar library represents.
pub open spec fn day_in_range(day: int) -> bool {
    MIN_DAY <= day <= MAX_DAY
}

/// The day number that `text` denotes when read with the strftime-style
/// pattern `fmt`, or `None` where it does not denote a date in that pattern.
pub uninterp spec fn parsed_day(text: Seq<char>, fmt: Seq<char>) -> Option<i32>;

/// The UTC date `secs` seconds after the Unix epoch, as a day number, or
/// `None` where it lies outside the calendar's range.
pub uninterp spec fn timestamp_day(secs: i64) -> Option<i32>;

/// The text of the date with day number `day`, written with the
/// strftime-style pattern `fmt`.
pub uninterp spec fn formatted_day(day: i32, fmt: Seq<char>) -> Seq<char>;

/// Relies on std's `SystemTime::now` and `SystemTime::duration_since`:
/// whole seconds since the Unix epoch on the system clock, or `None` where
/// the clock reads earlier than the epoch.
#[verifier::external_body]
fn clock_seconds() -> (r: Option<u64>) {
    match SystemTime::now().duration_since(UNIX_EPOCH) {
        Ok(elapsed) => Some(elapsed.as_secs()),
        Err(_) => None,
    }
}

/// Relies on chrono's `DateTime::<Utc>::from_timestamp`, which returns `None`
/// for a timestamp out of range, `DateTime::date_naive` and
/// `Datelike::num_days_from_ce`: the UTC date `secs` seconds after the Unix
/// epoch, as a day number. Every `NaiveDate` lies between `NaiveDate::MIN`
/// and `NaiveDate::MAX`.
#[verifier::external_body]
fn day_of_timestamp(secs: i64) -> (r: Option<i32>)
    ensures
        r == timestamp_day(secs),
        r matches Some(d) ==> day_in_range(d as int),
{
    match DateTime::<Utc>::from_timestamp(secs, 0) {
        Some(moment) => Some(moment.date_naive().num_days_from_ce()),
        None => None,
    }
}

/// Today's UTC date as a day number, or `None` where the system clock reads
/// before the Unix epoch or beyond the calendar's range.
pub fn today() -> (r: Option<i32>)
    ensures
        r matches Some(d) ==> day_in_range(d as int),
{
    match clock_seconds() {
        Some(secs) => if secs <= i64::MAX as u64 {
            day_of_timestamp(secs as i64)
        } else {
            None
        },
        None => None,
    }
}

/// Relies on chrono's `NaiveDate::parse_from_str` and
/// `Datelike::num_days_from_ce`: the date that `text` denotes in the pattern
/// `fmt`, as a day number, or `None` where chrono reports a parse error.
#[verifier::external_body]
pub(crate) fn parse_day(text: &str, fmt: &str) -> (r: Option<i32>)
    ensures
        r == parsed_day(text@, fmt@),
        r matches Some(d) ==> day_in_range(d as int),
{
    match NaiveDate::parse_from_str(text, fmt) {
        Ok(date) => Some(date.num_days_from_ce()),
        Err(_) => None,
    }
}

/// Relies on chrono's `NaiveDate::from_num_days_from_ce_opt`, which gives a
/// date for every day number in range, and `NaiveDate::format`, which writes
/// that date with the strftime-style pattern `fmt`.
#[verifier::external_body]
pub(crate) fn format_day(day: i32, fmt: &str) -> (r: String)
    requires
        day_in_range(day as int),
    ensures
        r@ == formatted_day(day, fmt@),
{
    let date = NaiveDate::from_num_days_from_ce_opt(day).unwrap();
    let mut text = String::new();
    let _ = write!(text, "{}", date.format(fmt));
    text
}

} // verus!
