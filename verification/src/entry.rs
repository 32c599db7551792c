//! Rules: a pattern over a date, and the label of the dates that it matches.

use vstd::prelude::*;

use crate::date::{parts_of, Date, DateParts, Parts, Weekday, Ymd};
use crate::gregorian::date_minus_days;

verus! {

/// What a rule asks of a date.
///
/// Each of the first six fields is a constraint where it is `Some`, and none
/// where it is `None`. A date matches when the day `offset` days before it
/// meets every constraint that is there.
pub ghost struct Pattern {
    /// The year.
    pub year: Option<int>,
    /// The month, from 1.
    pub month: Option<int>,
    /// The day of the month, from 1.
    pub day: Option<int>,
    /// The seven-day stretch of the month: see [`in_week_of_month`].
    pub week_of_month: Option<int>,
    /// The number of the ISO 8601 week.
    pub week_of_year: Option<int>,
    /// The weekdays that are let through.
    pub days_of_week: Option<Set<Weekday>>,
    /// How many days before the date asked about the constraints are read.
    pub offset: int,
}

/// Whether a day lies in stretch `week` of its month.
///
/// The month is cut into stretches of seven days. Counted from its first day
/// they are 1, 2, ...: days 1 to 7, days 8 to 14, and so on. Counted from its
/// last day they are -1, -2, ...: the last seven days, the seven before them,
/// and so on. There is no stretch 0.
pub open spec fn in_week_of_month(week: int, parts: Parts) -> bool {
    if week > 0 {
        parts.day >= 1 && week == (parts.day - 1) / 7 + 1
    } else if week < 0 {
        match parts.days_until_next_month {
            Some(left) => left >= 1 && -week == (left - 1) / 7 + 1,
            None => false,
        }
    } else {
        false
    }
}

impl Pattern {
    /// The pattern without constraints and without offset.
    pub open spec fn any() -> Pattern {
        Pattern {
            year: None,
            month: None,
            day: None,
            week_of_month: None,
            week_of_year: None,
            days_of_week: None,
            offset: 0,
        }
    }

    /// The constraint on the year, if there is one.
    pub open spec fn year_holds(self, parts: Parts) -> bool {
        self.year matches Some(year) ==> year == parts.year
    }

    /// The constraint on the month, if there is one.
    pub open spec fn month_holds(self, parts: Parts) -> bool {
        self.month matches Some(month) ==> month == parts.month
    }

    /// The constraint on the day of the month, if there is one.
    pub open spec fn day_holds(self, parts: Parts) -> bool {
        self.day matches Some(day) ==> day == parts.day
    }

    /// The constraint on the stretch of the month, if there is one.
    pub open spec fn week_of_month_holds(self, parts: Parts) -> bool {
        self.week_of_month matches Some(week) ==> in_week_of_month(week, parts)
    }

    /// The constraint on the ISO week, if there is one.
    pub open spec fn week_of_year_holds(self, parts: Parts) -> bool {
        self.week_of_year matches Some(week) ==> week == parts.iso_week
    }

    /// The constraint on the weekday, if there is one.
    pub open spec fn weekday_holds(self, parts: Parts) -> bool {
        self.days_of_week matches Some(days) ==> days.contains(parts.weekday)
    }

    /// Whether a day with these parts meets every constraint of the pattern.
    /// The offset plays no part here.
    pub open spec fn accepts(self, parts: Parts) -> bool {
        &&& self.year_holds(parts)
        &&& self.month_holds(parts)
        &&& self.day_holds(parts)
        &&& self.week_of_month_holds(parts)
        &&& self.week_of_year_holds(parts)
        &&& self.weekday_holds(parts)
    }

    /// The day whose parts the constraints are read against when `date` is
    /// asked about: the day `offset` days before it, where the calendar has it.
    pub open spec fn effective_date(self, date: Ymd) -> Option<Ymd> {
        date_minus_days(date, self.offset)
    }

    /// Whether the pattern matches `date`. Where the day `offset` days before
    /// `date` lies outside the calendar, it does not.
    pub open spec fn matches(self, date: Ymd) -> bool {
        match self.effective_date(date) {
            Some(effective) => self.accepts(parts_of(effective)),
            None => false,
        }
    }
}

/// A rule as the contracts see it: its label and its pattern.
pub ghost struct Rule<T> {
    pub classification: T,
    pub pattern: Pattern,
}

/// A rule: the label `classification`, and the pattern of the dates that get it.
///
/// A field that is `None` asks nothing. `week_of_month` counts stretches of
/// seven days from the first day of the month (1, 2, ...) or from its last day
/// (-1, -2, ...); 0 matches no day. `week_of_year` is the ISO 8601 week
/// number. `offset` moves the rule `offset` days later than the days its
/// other fields describe: with `offset` 2, the rule for a Saturday the 25th
/// matches Monday the 27th.
///
/// Fields that no day can meet together (the 31st of February) make a rule
/// that matches nothing; it is a rule all the same.
#[derive(Debug)]
pub struct CalendarEntry<T> {
    /// How to classify the dates that this rule matches.
    pub classification: T,
    /// The year that this rule applies to.
    pub year: Option<i32>,
    /// The month that this rule applies to, from 1.
    pub month: Option<u32>,
    /// The day of the month that this rule applies to, from 1.
    pub day: Option<u32>,
    /// The seven-day stretch of the month that this rule applies to.
    pub week_of_month: Option<i32>,
    /// The ISO 8601 week that this rule applies to.
    pub week_of_year: Option<u32>,
    /// The weekdays that this rule applies to.
    pub days_of_week: Option<Vec<Weekday>>,
    /// The number of days by which the rule lags behind the days it describes.
    pub offset: i32,
}

impl<T> View for CalendarEntry<T> {
    type V = Rule<T>;

    open spec fn view(&self) -> Rule<T> {
        Rule { classification: self.classification, pattern: self.pattern() }
    }
}

/// Whether `day` is one of `days`.
fn contains_weekday(days: &Vec<Weekday>, day: Weekday) -> (r: bool)
    ensures
        r == days@.to_set().contains(day),
{
    let mut i: usize = 0;
    while i < days.len()
        invariant
            i <= days.len(),
            forall|j: int| 0 <= j < i ==> days@[j] != day,
        decreases days.len() - i,
    {
        if days[i] == day {
            return true;
        }
        i += 1;
    }
    false
}

/// Whether the day with these parts lies in stretch `week` of its month.
fn week_of_month_matches(week: i32, parts: &DateParts) -> (r: bool)
    ensures
        r == in_week_of_month(week as int, parts@),
{
    if week > 0 {
        parts.day >= 1 && week as i64 == ((parts.day - 1) / 7) as i64 + 1
    } else if week < 0 {
        match parts.days_until_next_month {
            Some(left) => left >= 1 && -(week as i64) == (left - 1) / 7 + 1,
            None => false,
        }
    } else {
        false
    }
}

impl<T> CalendarEntry<T> {
    /// The pattern of this rule.
    pub open spec fn pattern(&self) -> Pattern {
        Pattern {
            year: match self.year {
                Some(year) => Some(year as int),
                None => None,
            },
            month: match self.month {
                Some(month) => Some(month as int),
                None => None,
            },
            day: match self.day {
                Some(day) => Some(day as int),
                None => None,
            },
            week_of_month: match self.week_of_month {
                Some(week) => Some(week as int),
                None => None,
            },
            week_of_year: match self.week_of_year {
                Some(week) => Some(week as int),
                None => None,
            },
            days_of_week: match self.days_of_week {
                Some(days) => Some(days@.to_set()),
                None => None,
            },
            offset: self.offset as int,
        }
    }

    /// Whether a day with these parts meets every constraint of this rule.
    /// The offset plays no part: `parts` are those of the day that the
    /// constraints are read against.
    pub fn matches_parts(&self, parts: &DateParts) -> (r: bool)
        ensures
            r == self@.pattern.accepts(parts@),
    {
        (match self.year {
            Some(year) => year == parts.year,
            None => true,
        }) && (match self.month {
            Some(month) => month == parts.month,
            None => true,
        }) && (match self.day {
            Some(day) => day == parts.day,
            None => true,
        }) && (match self.week_of_month {
            Some(week) => week_of_month_matches(week, parts),
            None => true,
        }) && (match self.week_of_year {
            Some(week) => week == parts.iso_week,
            None => true,
        }) && (match &self.days_of_week {
            Some(days) => contains_weekday(days, parts.weekday),
            None => true,
        })
    }

    /// Whether this rule matches `date`: whether the day `offset` days before
    /// `date` meets every constraint of the rule. Where that day lies outside
    /// the calendar, the rule does not match.
    pub fn matches(&self, date: Date) -> (r: bool)
        ensures
            r == self@.pattern.matches(date@),
            self.offset == 0 ==> r == self@.pattern.accepts(parts_of(date@)),
    {
        match date.minus_days(self.offset) {
            Some(effective) => {
                let parts = effective.parts();
                self.matches_parts(&parts)
            },
            None => false,
        }
    }

    /// The rule with these fields, and no constraint on the week of the year.
    pub fn new(
        classification: T,
        year: Option<i32>,
        month: Option<u32>,
        day: Option<u32>,
        week_of_month: Option<i32>,
        days_of_week: Option<Vec<Weekday>>,
        offset: i32,
    ) -> (r: Self)
        ensures
            r == (CalendarEntry {
                classification,
                year,
                month,
                day,
                week_of_month,
                week_of_year: None,
                days_of_week,
                offset,
            }),
    {
        CalendarEntry {
            classification,
            year,
            month,
            day,
            week_of_month,
            week_of_year: None,
            days_of_week,
            offset,
        }
    }

    /// The rule that matches every date.
    pub fn all(classification: T) -> (r: Self)
        ensures
            r@ == (Rule { classification, pattern: Pattern::any() }),
    {
        Self::new(classification, None, None, None, None, None, 0)
    }

    /// The rule for a year, a month and a day of the month, each of which may
    /// be left open.
    pub fn ymd(classification: T, year: Option<i32>, month: Option<u32>, day: Option<u32>) -> (r:
        Self)
        ensures
            r == (CalendarEntry {
                classification,
                year,
                month,
                day,
                week_of_month: None,
                week_of_year: None,
                days_of_week: None,
                offset: 0,
            }),
    {
        Self::new(classification, year, month, day, None, None, 0)
    }

    /// The rule for a year, a month and a day of the month, `offset` days later.
    pub fn ymd_offset(
        classification: T,
        year: Option<i32>,
        month: Option<u32>,
        day: Option<u32>,
        offset: i32,
    ) -> (r: Self)
        ensures
            r == (CalendarEntry {
                classification,
                year,
                month,
                day,
                week_of_month: None,
                week_of_year: None,
                days_of_week: None,
                offset,
            }),
    {
        Self::new(classification, year, month, day, None, None, offset)
    }

    /// The rule for the dates that fall on one of `days_of_week`.
    pub fn days(classification: T, days_of_week: Vec<Weekday>) -> (r: Self)
        ensures
            r == (CalendarEntry {
                classification,
                year: None,
                month: None,
                day: None,
                week_of_month: None,
                week_of_year: None,
                days_of_week: Some(days_of_week),
                offset: 0,
            }),
    {
        Self::new(classification, None, None, None, None, Some(days_of_week), 0)
    }
}

} // verus!
