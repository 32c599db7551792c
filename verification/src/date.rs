//! Calendar dates, and the facts about a date that a rule is matched against.

use vstd::prelude::*;

use crate::gregorian::{
    chrono_date, chrono_days_between, chrono_first_of_next_month, chrono_iso_week,
    chrono_minus_days, chrono_weekday, date_minus_days, days_between, first_of_next_month,
    is_calendar_date, iso_week_of, weekday_of,
};

verus! {

/// A day of the week.
#[derive(Clone, Copy, Debug, PartialEq, Eq, Hash, Structural)]
pub enum Weekday {
    Mon,
    Tue,
    Wed,
    Thu,
    Fri,
    Sat,
    Sun,
}

/// Year, month and day as mathematical integers: what a [`Date`] stands for.
pub ghost struct Ymd {
    pub year: int,
    pub month: int,
    pub day: int,
}

impl Ymd {
    /// Whether the triple names a day of the supported calendar.
    pub open spec fn is_valid(self) -> bool {
        is_calendar_date(self.year, self.month, self.day)
    }
}

/// What a rule reads of a date: its year, month, day and weekday, the number
/// of days from it to the first of the following month (`None` where that
/// month lies beyond the supported years), and its ISO 8601 week number.
pub ghost struct Parts {
    pub year: int,
    pub month: int,
    pub day: int,
    pub weekday: Weekday,
    pub days_until_next_month: Option<int>,
    pub iso_week: int,
}

/// The number of days from `date` to the first of the month after it.
pub open spec fn days_until_next_month(date: Ymd) -> Option<int> {
    match first_of_next_month(date) {
        Some(next) => Some(days_between(date, next)),
        None => None,
    }
}

/// The parts of a calendar date.
pub open spec fn parts_of(date: Ymd) -> Parts {
    Parts {
        year: date.year,
        month: date.month,
        day: date.day,
        weekday: weekday_of(date),
        days_until_next_month: days_until_next_month(date),
        iso_week: iso_week_of(date),
    }
}

/// The error for a year, month and day that name no day of the calendar.
#[derive(Clone, Copy, Debug, PartialEq, Eq, Structural)]
pub struct InvalidDate {
    pub year: i32,
    pub month: u32,
    pub day: u32,
}

/// A day of the proleptic Gregorian calendar, in the years from
/// [`MIN_YEAR`](crate::gregorian::MIN_YEAR) to
/// [`MAX_YEAR`](crate::gregorian::MAX_YEAR).
///
/// Every value is a day that exists: the only ways to one are
/// [`Date::from_ymd`] and [`Date::minus_days`].
#[derive(Clone, Copy, Debug, PartialEq, Eq, Hash, Structural)]
pub struct Date {
    pub(crate) year: i32,
    pub(crate) month: u32,
    pub(crate) day: u32,
}

impl View for Date {
    type V = Ymd;

    closed spec fn view(&self) -> Ymd {
        Ymd { year: self.year as int, month: self.month as int, day: self.day as int }
    }
}

impl Date {
    #[verifier::type_invariant]
    spec fn exists_in_calendar(self) -> bool {
        self@.is_valid()
    }

    /// The date with this year, month (1 to 12) and day of the month (from 1),
    /// or the error where the calendar has no such day.
    pub fn from_ymd(year: i32, month: u32, day: u32) -> (r: Result<Date, InvalidDate>)
        ensures
            is_calendar_date(year as int, month as int, day as int) ==> r is Ok && r->Ok_0@ == (Ymd {
                year: year as int,
                month: month as int,
                day: day as int,
            }),
            !is_calendar_date(year as int, month as int, day as int) ==> r == Err::<Date, InvalidDate>(
                InvalidDate { year, month, day },
            ),
    {
        match chrono_date(year, month, day) {
            Some(date) => Ok(date),
            None => Err(InvalidDate { year, month, day }),
        }
    }

    /// The year.
    pub fn year(&self) -> (r: i32)
        ensures
            r == self@.year,
            self@.is_valid(),
    {
        proof {
            use_type_invariant(self);
        }
        self.year
    }

    /// The month, from 1.
    pub fn month(&self) -> (r: u32)
        ensures
            r == self@.month,
            self@.is_valid(),
    {
        proof {
            use_type_invariant(self);
        }
        self.month
    }

    /// The day of the month, from 1.
    pub fn day(&self) -> (r: u32)
        ensures
            r == self@.day,
            self@.is_valid(),
    {
        proof {
            use_type_invariant(self);
        }
        self.day
    }

    /// The date `days` days before this one (after it, where `days` is
    /// negative), or `None` where that day lies outside the supported years.
    pub fn minus_days(&self, days: i32) -> (r: Option<Date>)
        ensures
            match r {
                Some(earlier) => date_minus_days(self@, days as int) == Some(earlier@),
                None => date_minus_days(self@, days as int) is None,
            },
            days == 0 ==> r == Some(*self),
    {
        proof {
            use_type_invariant(self);
        }
        chrono_minus_days(*self, days)
    }

    /// The parts of this date that rules are matched against.
    pub fn parts(&self) -> (r: DateParts)
        ensures
            r@ == parts_of(self@),
    {
        proof {
            use_type_invariant(self);
        }
        let weekday = chrono_weekday(*self).unwrap();
        let days_until_next_month = match chrono_first_of_next_month(*self) {
            Some(next) => {
                proof {
                    use_type_invariant(next);
                }
                chrono_days_between(*self, next)
            },
            None => None,
        };
        let iso_week = chrono_iso_week(*self).unwrap();
        DateParts {
            year: self.year,
            month: self.month,
            day: self.day,
            weekday,
            days_until_next_month,
            iso_week,
        }
    }
}

/// The parts of a date as plain values: see [`Parts`].
///
/// [`Date::parts`] fills one in from a date. A value written by hand need not
/// belong to any date; the rules are matched against it all the same.
#[derive(Clone, Copy, Debug, PartialEq, Eq, Structural)]
pub struct DateParts {
    pub year: i32,
    pub month: u32,
    pub day: u32,
    pub weekday: Weekday,
    pub days_until_next_month: Option<i64>,
    pub iso_week: u32,
}

impl View for DateParts {
    type V = Parts;

    open spec fn view(&self) -> Parts {
        Parts {
            year: self.year as int,
            month: self.month as int,
            day: self.day as int,
            weekday: self.weekday,
            days_until_next_month: match self.days_until_next_month {
                Some(n) => Some(n as int),
                None => None,
            },
            iso_week: self.iso_week as int,
        }
    }
}

} // verus!
