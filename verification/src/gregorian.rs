//! The calendar, as far as this library states it, and the calls into chrono.
//!
//! Which days exist is stated here in full: [`is_calendar_date`]. What takes
//! chrono's tables to compute is only named: [`date_minus_days`],
//! [`days_between`], [`weekday_of`] and [`iso_week_of`] stand for what chrono
//! returns, and nothing in this library says what they are on any given date.
//!
//! The functions `chrono_*` make the calls. Their contracts are not proved:
//! each says in its comment which function of chrono it calls and what it
//! claims of it.

use vstd::prelude::*;

use crate::date::{Date, Weekday, Ymd};

verus! {

/// The first year of the supported calendar.
pub const MIN_YEAR: i32 = -262143;

/// The last year of the supported calendar.
pub const MAX_YEAR: i32 = 262142;

/// Whether `year` is a leap year of the proleptic Gregorian calendar.
pub open spec fn is_leap_year(year: int) -> bool {
    year % 4 == 0 && (year % 100 != 0 || year % 400 == 0)
}

/// The number of days of a month of `year`; 0 where `month` is not 1 to 12.
pub open spec fn days_in_month(year: int, month: int) -> int {
    if month == 2 {
        if is_leap_year(year) {
            29
        } else {
            28
        }
    } else if month == 4 || month == 6 || month == 9 || month == 11 {
        30
    } else if 1 <= month <= 12 {
        31
    } else {
        0
    }
}

/// Whether the calendar has a day with this year, month and day of the month.
pub open spec fn is_calendar_date(year: int, month: int, day: int) -> bool {
    &&& MIN_YEAR <= year <= MAX_YEAR
    &&& 1 <= month <= 12
    &&& 1 <= day <= days_in_month(year, month)
}

/// The first day of the month after that of `date`; `None` after the last
/// month of the calendar.
pub open spec fn first_of_next_month(date: Ymd) -> Option<Ymd> {
    if date.month < 12 {
        Some(Ymd { year: date.year, month: date.month + 1, day: 1 })
    } else if date.year < MAX_YEAR {
        Some(Ymd { year: date.year + 1, month: 1, day: 1 })
    } else {
        None
    }
}

/// The day `days` days before `date` (after it, for negative `days`); `None`
/// where that day lies outside the calendar.
pub uninterp spec fn date_minus_days(date: Ymd, days: int) -> Option<Ymd>;

/// The number of days from `from` to `to`; negative where `to` is the earlier.
pub uninterp spec fn days_between(from: Ymd, to: Ymd) -> int;

/// The day of the week of `date`.
pub uninterp spec fn weekday_of(date: Ymd) -> Weekday;

/// The number of the ISO 8601 week that `date` lies in.
pub uninterp spec fn iso_week_of(date: Ymd) -> int;

/// Calls `chrono::NaiveDate::from_ymd_opt` and reads the date back by
/// `Datelike::year`, `month` and `day`.
///
/// Claimed: chrono makes a date exactly of the triples that
/// [`is_calendar_date`] admits, and the date it makes has the year, month
/// and day that it was made of.
#[verifier::external_body]
pub(crate) fn chrono_date(year: i32, month: u32, day: u32) -> (r: Option<Date>)
    ensures
        r == if is_calendar_date(year as int, month as int, day as int) {
            Some(Date { year, month, day })
        } else {
            None
        },
{
    let date = chrono::NaiveDate::from_ymd_opt(year, month, day)?;
    Some(
        Date {
            year: chrono::Datelike::year(&date),
            month: chrono::Datelike::month(&date),
            day: chrono::Datelike::day(&date),
        },
    )
}

/// Calls `chrono::NaiveDate::checked_sub_signed` with a `TimeDelta` of `days`
/// whole days.
///
/// Claimed: what comes back is a function of the date and the number of days
/// alone, here named [`date_minus_days`]; it is a day of the calendar; and
/// taking no days away gives the date itself.
#[verifier::external_body]
pub(crate) fn chrono_minus_days(date: Date, days: i32) -> (r: Option<Date>)
    requires
        date@.is_valid(),
    ensures
        match r {
            Some(earlier) => earlier@.is_valid() && date_minus_days(date@, days as int) == Some(
                earlier@,
            ),
            None => date_minus_days(date@, days as int) is None,
        },
        days == 0 ==> r == Some(date),
{
    let day = chrono::NaiveDate::from_ymd_opt(date.year, date.month, date.day)?;
    let earlier = day.checked_sub_signed(chrono::TimeDelta::days(days as i64))?;
    Some(
        Date {
            year: chrono::Datelike::year(&earlier),
            month: chrono::Datelike::month(&earlier),
            day: chrono::Datelike::day(&earlier),
        },
    )
}

/// Calls `chrono::Datelike::weekday`.
///
/// Claimed: the weekday is a function of the date alone, here named
/// [`weekday_of`].
#[verifier::external_body]
pub(crate) fn chrono_weekday(date: Date) -> (r: Option<Weekday>)
    requires
        date@.is_valid(),
    ensures
        r == Some(weekday_of(date@)),
{
    let day = chrono::NaiveDate::from_ymd_opt(date.year, date.month, date.day)?;
    Some(
        match chrono::Datelike::weekday(&day) {
            chrono::Weekday::Mon => Weekday::Mon,
            chrono::Weekday::Tue => Weekday::Tue,
            chrono::Weekday::Wed => Weekday::Wed,
            chrono::Weekday::Thu => Weekday::Thu,
            chrono::Weekday::Fri => Weekday::Fri,
            chrono::Weekday::Sat => Weekday::Sat,
            chrono::Weekday::Sun => Weekday::Sun,
        },
    )
}

/// Calls `chrono::NaiveDate::checked_add_months`, with one month, on the
/// first day of the date's month.
///
/// Claimed: one month after the first of a month is the first of the next
/// month, in the next year after December; chrono gives `None` only where
/// that year is past [`MAX_YEAR`].
#[verifier::external_body]
pub(crate) fn chrono_first_of_next_month(date: Date) -> (r: Option<Date>)
    requires
        date@.is_valid(),
    ensures
        match r {
            Some(next) => next@.is_valid() && first_of_next_month(date@) == Some(next@),
            None => first_of_next_month(date@) is None,
        },
{
    let first = chrono::NaiveDate::from_ymd_opt(date.year, date.month, 1)?;
    let next = first.checked_add_months(chrono::Months::new(1))?;
    Some(
        Date {
            year: chrono::Datelike::year(&next),
            month: chrono::Datelike::month(&next),
            day: chrono::Datelike::day(&next),
        },
    )
}

/// Calls `chrono::NaiveDate::signed_duration_since` and takes the whole days
/// of the result by `TimeDelta::num_days`.
///
/// Claimed: the number of days is a function of the two dates alone, here
/// named [`days_between`].
#[verifier::external_body]
pub(crate) fn chrono_days_between(from: Date, to: Date) -> (r: Option<i64>)
    requires
        from@.is_valid(),
        to@.is_valid(),
    ensures
        match r {
            Some(n) => n == days_between(from@, to@),
            None => false,
        },
{
    let start = chrono::NaiveDate::from_ymd_opt(from.year, from.month, from.day)?;
    let end = chrono::NaiveDate::from_ymd_opt(to.year, to.month, to.day)?;
    Some(end.signed_duration_since(start).num_days())
}

/// Calls `chrono::Datelike::iso_week` and takes the week's number by
/// `IsoWeek::week`.
///
/// Claimed: the number is a function of the date alone, here named
/// [`iso_week_of`], and lies between 1 and 53.
#[verifier::external_body]
pub(crate) fn chrono_iso_week(date: Date) -> (r: Option<u32>)
    requires
        date@.is_valid(),
    ensures
        match r {
            Some(week) => week == iso_week_of(date@) && 1 <= week <= 53,
            None => false,
        },
{
    let day = chrono::NaiveDate::from_ymd_opt(date.year, date.month, date.day)?;
    Some(chrono::Datelike::iso_week(&day).week())
}

} // verus!
