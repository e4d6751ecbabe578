use chrono::{Datelike, NaiveDate};
use vstd::prelude::*;

verus! {

/// The day number (days since the common era, 0001-01-01 being day 1) of the
/// date that a text holds in the pattern `YYYY-MM-DD`, or `None`.
pub uninterp spec fn parsed_day(s: Seq<char>) -> Option<int>;

/// The text `YYYY-MM-DD` of a day number, or `None` out of chrono's range.
pub uninterp spec fn day_text(day: int) -> Option<Seq<char>>;

/// Relies on chrono's `NaiveDate::parse_from_str` with the pattern
/// `%Y-%m-%d`, and on `Datelike::num_days_from_ce` for the day number of the
/// date it gives.
#[verifier::external_body]
pub(crate) fn parse_day(s: &str) -> (r: Option<i32>)
    ensures
        match r {
            Some(v) => parsed_day(s@) == Some(v as int),
            None => parsed_day(s@) is None,
        },
{
    match NaiveDate::parse_from_str(s, "%Y-%m-%d") {
        Ok(d) => Some(d.num_days_from_ce()),
        Err(_) => None,
    }
}

/// Relies on chrono's `NaiveDate::from_num_days_from_ce_opt` for the date of a
/// day number, written with `format("%Y-%m-%d")`.
#[verifier::external_body]
pub(crate) fn format_day(day: i32) -> (r: Option<String>)
    ensures
        match day_text(day as int) {
            Some(t) => r matches Some(s) && s@ == t,
            None => r is None,
        },
{
    match NaiveDate::from_num_days_from_ce_opt(day) {
        Some(d) => Some(d.format("%Y-%m-%d").to_string()),
        None => None,
    }
}

/// Day of the week of a day number, counted from Monday (0) to Sunday (6).
/// Day 1, 0001-01-01, is a Monday.
pub open spec fn weekday_of(day: int) -> int {
    (day - 1) % 7
}

/// Day of the week of a day number, counted from Monday (0) to Sunday (6).
pub fn weekday(day: i64) -> (r: u32)
    requires
        day > i64::MIN,
    ensures
        r == weekday_of(day as int),
        r < 7,
{
    match (day - 1).checked_rem_euclid(7) {
        Some(r) => r as u32,
        None => 0,
    }
}

pub fn is_sunday(day: i64) -> (r: bool)
    requires
        day > i64::MIN,
    ensures
        r == (weekday_of(day as int) == 6),
{
    weekday(day) == 6
}

} // verus!
