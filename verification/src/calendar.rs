//! The proleptic Gregorian calendar, as `chrono` counts it: every date has a
//! day number, and the first of January of the year 1 is day 1.

use chrono::{Datelike, NaiveDate};
use vstd::prelude::*;

verus! {

/// The day number that `chrono` gives the calendar date `year`-`month`-`day`,
/// or `None` where `chrono` has no such date.
pub uninterp spec fn gregorian_day_number(year: i32, month: u32, day: u32) -> Option<i32>;

/// The calendar date (year, month, day) that `chrono` gives the day number
/// `day_number`, or `None` where the date is out of `chrono`'s range.
pub uninterp spec fn gregorian_date(day_number: i32) -> Option<(i32, u32, u32)>;

/// The day number of the first of January of `year`.
pub open spec fn new_year_day_number(year: i32) -> int
    recommends
        1 <= year <= 9999,
{
    gregorian_day_number(year, 1, 1).unwrap() as int
}

/// Makes the date with `chrono`'s `NaiveDate::from_ymd_opt` and counts its
/// days with `Datelike::num_days_from_ce`. The result depends on the three
/// arguments alone. `from_ymd_opt` returns `None` only for a day that does not
/// exist, a month or day out of range, or a year out of `chrono`'s range,
/// which reaches more than 262000 years either way; the contract claims
/// `Some` for the first 28 days of every month of the years 1 to 9999.
#[verifier::external_body]
pub(crate) fn day_number_from_ymd(year: i32, month: u32, day: u32) -> (number: Option<i32>)
    ensures
        number == gregorian_day_number(year, month, day),
        1 <= year <= 9999 && 1 <= month <= 12 && 1 <= day <= 28 ==> number is Some,
{
    match NaiveDate::from_ymd_opt(year, month, day) {
        Some(date) => Some(date.num_days_from_ce()),
        None => None,
    }
}

/// The day number of the first of January of `year`.
pub(crate) fn new_year_day(year: i32) -> (number: i32)
    requires
        1 <= year <= 9999,
    ensures
        number == new_year_day_number(year),
{
    day_number_from_ymd(year, 1, 1).unwrap()
}

/// Makes the date with `chrono`'s `NaiveDate::from_num_days_from_ce_opt` and
/// reads its year, month and day with `Datelike::year`, `month` and `day`.
/// The result depends on the argument alone.
#[verifier::external_body]
pub(crate) fn ymd_from_day_number(day_number: i32) -> (date: Option<(i32, u32, u32)>)
    ensures
        date == gregorian_date(day_number),
{
    match NaiveDate::from_num_days_from_ce_opt(day_number) {
        Some(date) => Some((date.year(), date.month(), date.day())),
        None => None,
    }
}

} // verus!
