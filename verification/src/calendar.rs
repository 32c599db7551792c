//! The calendar: rules in the order in which they are asked.

use vstd::prelude::*;

use crate::date::{Date, InvalidDate, Weekday, Ymd};
use crate::entry::{CalendarEntry, Pattern, Rule};
use crate::gregorian::is_calendar_date;

verus! {

/// The label that `rules`, asked from the first on, give to `date`: that of
/// the first rule that matches, or `None` where no rule matches.
pub open spec fn classify_rules<T>(rules: Seq<Rule<T>>, date: Ymd) -> Option<T>
    decreases rules.len(),
{
    if rules.len() == 0 {
        None
    } else if rules[0].pattern.matches(date) {
        Some(rules[0].classification)
    } else {
        classify_rules(rules.drop_first(), date)
    }
}

/// What [`Calendar::add_entry`] makes of its `week`: the stretch of the month
/// with that number, counted from the first day of the month. A number that
/// no `i32` holds becomes the largest `i32`; the rule matches no day either way.
pub open spec fn week_from_start(week: Option<u32>) -> Option<int> {
    match week {
        Some(w) => Some(
            if w <= i32::MAX {
                w as int
            } else {
                i32::MAX as int
            },
        ),
        None => None,
    }
}

/// A collection of rules against which dates are classified into the labels
/// of a domain: "workday", "weekend", "bank holiday".
///
/// `entries` holds the rules in the order in which they are asked. A rule
/// that is added goes to the front, so the rule added last is asked first and
/// overrides the rules before it wherever it matches.
///
/// Nothing here is synchronised. Build the calendar first; once no rule is
/// added any more, any number of readers may classify at the same time.
#[derive(Debug)]
pub struct Calendar<T> {
    pub entries: Vec<CalendarEntry<T>>,
}

impl<T> View for Calendar<T> {
    type V = Seq<Rule<T>>;

    /// The rules, the one asked first at index 0.
    open spec fn view(&self) -> Seq<Rule<T>> {
        Seq::new(self.entries@.len(), |i: int| self.entries@[i]@)
    }
}

impl<T> Default for Calendar<T> {
    fn default() -> (r: Self)
        ensures
            r@ == Seq::<Rule<T>>::empty(),
    {
        Self::new()
    }
}

impl<T> Calendar<T> {
    /// The calendar without rules.
    pub fn new() -> (r: Self)
        ensures
            r@ == Seq::<Rule<T>>::empty(),
            forall|date: Ymd| classify_rules(r@, date) is None,
    {
        let r = Calendar { entries: Vec::new() };
        assert(r@ =~= Seq::<Rule<T>>::empty());
        r
    }

    /// The label of `date`: that of the rule added last among those that
    /// match it, or `None` where no rule matches.
    ///
    /// The calendar is only read, so the same question gets the same answer
    /// as often as it is asked.
    pub fn classify(&self, date: Date) -> (r: Option<&T>)
        ensures
            match r {
                Some(label) => classify_rules(self@, date@) == Some(*label),
                None => classify_rules(self@, date@) is None,
            },
    {
        let mut i: usize = 0;
        assert(self@.skip(0) =~= self@);
        while i < self.entries.len()
            invariant
                i <= self.entries.len(),
                classify_rules(self@, date@) == classify_rules(self@.skip(i as int), date@),
            decreases self.entries.len() - i,
        {
            proof {
                assert(self@.skip(i as int)[0] == self.entries@[i as int]@);
                assert(self@.skip(i as int).drop_first() =~= self@.skip(i + 1));
            }
            if self.entries[i].matches(date) {
                return Some(&self.entries[i].classification);
            }
            i += 1;
        }
        None
    }

    /// The label of the day with this year, month and day of the month, as
    /// [`Calendar::classify`] gives it, or the error where the calendar has
    /// no such day.
    pub fn classify_ymd(&self, year: i32, month: u32, day: u32) -> (r: Result<
        Option<&T>,
        InvalidDate,
    >)
        ensures
            is_calendar_date(year as int, month as int, day as int) ==> match r {
                Ok(Some(label)) => classify_rules(
                    self@,
                    Ymd { year: year as int, month: month as int, day: day as int },
                ) == Some(*label),
                Ok(None) => classify_rules(
                    self@,
                    Ymd { year: year as int, month: month as int, day: day as int },
                ) is None,
                Err(_) => false,
            },
            !is_calendar_date(year as int, month as int, day as int) ==> r == Err::<
                Option<&T>,
                InvalidDate,
            >(InvalidDate { year, month, day }),
    {
        match Date::from_ymd(year, month, day) {
            Ok(date) => Ok(self.classify(date)),
            Err(e) => Err(e),
        }
    }

    /// Adds a rule. It is asked before every rule that was added earlier.
    pub fn add(&mut self, entry: CalendarEntry<T>)
        ensures
            final(self)@ == seq![entry@] + old(self)@,
    {
        let ghost rule = entry@;
        self.entries.insert(0, entry);
        assert(self@ =~= seq![rule] + old(self)@);
    }

    /// Adds the rule with these fields, without offset. `week` is the
    /// seven-day stretch of the month counted from its first day: see
    /// [`week_from_start`].
    pub fn add_entry(
        &mut self,
        classification: T,
        year: Option<i32>,
        month: Option<u32>,
        day: Option<u32>,
        week: Option<u32>,
        days_of_week: Option<Vec<Weekday>>,
    )
        ensures
            final(self)@ == seq![
                Rule {
                    classification,
                    pattern: Pattern {
                        year: match year {
                            Some(y) => Some(y as int),
                            None => None,
                        },
                        month: match month {
                            Some(m) => Some(m as int),
                            None => None,
                        },
                        day: match day {
                            Some(d) => Some(d as int),
                            None => None,
                        },
                        week_of_month: week_from_start(week),
                        week_of_year: None,
                        days_of_week: match days_of_week {
                            Some(days) => Some(days@.to_set()),
                            None => None,
                        },
                        offset: 0,
                    },
                },
            ] + old(self)@,
    {
        let week_of_month = match week {
            Some(w) => Some(
                if w <= 0x7fff_ffff {
                    w as i32
                } else {
                    i32::MAX
                },
            ),
            None => None,
        };
        let entry = CalendarEntry::new(
            classification,
            year,
            month,
            day,
            week_of_month,
            days_of_week,
            0,
        );
        self.add(entry);
    }
}

} // verus!
