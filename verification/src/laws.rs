//! What holds of every calendar, every rule and every date.

use vstd::prelude::*;

use crate::calendar::classify_rules;
use crate::date::{parts_of, Parts, Weekday, Ymd};
use crate::entry::{in_week_of_month, Pattern, Rule};

verus! {

/// A calendar without rules gives no date a label.
pub proof fn lemma_no_rules_no_label<T>(date: Ymd)
    ensures
        classify_rules(Seq::<Rule<T>>::empty(), date) is None,
{
}

/// A rule that has just been added is asked first: where it matches, its
/// label is the answer; where it does not, the answer is what it was before
/// the rule was added.
pub proof fn lemma_added_rule_is_asked_first<T>(rules: Seq<Rule<T>>, added: Rule<T>, date: Ymd)
    ensures
        classify_rules(seq![added] + rules, date) == if added.pattern.matches(date) {
            Some(added.classification)
        } else {
            classify_rules(rules, date)
        },
{
    assert((seq![added] + rules).drop_first() =~= rules);
}

/// Of two rules that match the same date, the one added later decides,
/// whatever rules were there before.
pub proof fn lemma_later_rule_takes_precedence<T>(
    rules: Seq<Rule<T>>,
    earlier: Rule<T>,
    later: Rule<T>,
    date: Ymd,
)
    requires
        earlier.pattern.matches(date),
        later.pattern.matches(date),
    ensures
        classify_rules(seq![later] + (seq![earlier] + rules), date) == Some(later.classification),
{
    lemma_added_rule_is_asked_first(seq![earlier] + rules, later, date);
}

/// The answer is the label of the first rule, in the order in which the rules
/// are asked, that matches; there is none exactly where no rule matches.
pub proof fn lemma_first_match_decides<T>(rules: Seq<Rule<T>>, date: Ymd)
    ensures
        match classify_rules(rules, date) {
            Some(label) => exists|i: int|
                {
                    &&& 0 <= i < rules.len()
                    &&& #[trigger] rules[i].pattern.matches(date)
                    &&& rules[i].classification == label
                    &&& forall|j: int| 0 <= j < i ==> !(#[trigger] rules[j]).pattern.matches(date)
                },
            None => forall|i: int| 0 <= i < rules.len() ==> !(#[trigger] rules[i]).pattern.matches(date),
        },
    decreases rules.len(),
{
    if rules.len() == 0 {
    } else if rules[0].pattern.matches(date) {
        assert(rules[0].pattern.matches(date) && rules[0].classification == rules[0].classification);
    } else {
        let rest = rules.drop_first();
        lemma_first_match_decides(rest, date);
        assert(forall|i: int| 0 <= i < rest.len() ==> rest[i] == rules[i + 1]);
        match classify_rules(rest, date) {
            Some(label) => {
                let i = choose|i: int|
                    {
                        &&& 0 <= i < rest.len()
                        &&& #[trigger] rest[i].pattern.matches(date)
                        &&& rest[i].classification == label
                        &&& forall|j: int| 0 <= j < i ==> !(#[trigger] rest[j]).pattern.matches(date)
                    };
                assert forall|j: int| 0 <= j < i + 1 implies !(#[trigger] rules[j]).pattern.matches(
                    date,
                ) by {
                    if j > 0 {
                        assert(rest[j - 1] == rules[j]);
                    }
                }
                assert(rules[i + 1].pattern.matches(date));
            },
            None => {
                assert forall|i: int| 0 <= i < rules.len() implies !(#[trigger] rules[i]).pattern.matches(
                    date,
                ) by {
                    if i > 0 {
                        assert(rest[i - 1] == rules[i]);
                    }
                }
            },
        }
    }
}

/// One question has one answer: whatever a calendar with these rules says of
/// this date once, it says every time.
pub proof fn lemma_same_question_same_answer<T>(
    rules: Seq<Rule<T>>,
    date: Ymd,
    first: Option<T>,
    second: Option<T>,
)
    requires
        first == classify_rules(rules, date),
        second == classify_rules(rules, date),
    ensures
        first == second,
{
}

/// The parts of the day that `pattern` reads its constraints against when it
/// is asked about `date`. It says nothing where the calendar has no such day.
pub open spec fn effective_parts(pattern: Pattern, date: Ymd) -> Parts {
    parts_of(pattern.effective_date(date)->Some_0)
}

/// Each constraint stands for itself. Put on a pattern that had none in that
/// field, it leaves the pattern's verdict on a day as it was where the day
/// meets the new constraint, and turns it to "no" where the day does not.
pub proof fn lemma_constraints_are_independent(
    pattern: Pattern,
    parts: Parts,
    year: int,
    month: int,
    day: int,
    week_of_month: int,
    week_of_year: int,
    days_of_week: Set<Weekday>,
)
    ensures
        pattern.year is None ==> (Pattern { year: Some(year), ..pattern }).accepts(parts) == (
        pattern.accepts(parts) && parts.year == year),
        pattern.month is None ==> (Pattern { month: Some(month), ..pattern }).accepts(parts) == (
        pattern.accepts(parts) && parts.month == month),
        pattern.day is None ==> (Pattern { day: Some(day), ..pattern }).accepts(parts) == (
        pattern.accepts(parts) && parts.day == day),
        pattern.week_of_month is None ==> (Pattern {
            week_of_month: Some(week_of_month),
            ..pattern
        }).accepts(parts) == (pattern.accepts(parts) && in_week_of_month(week_of_month, parts)),
        pattern.week_of_year is None ==> (Pattern {
            week_of_year: Some(week_of_year),
            ..pattern
        }).accepts(parts) == (pattern.accepts(parts) && parts.iso_week == week_of_year),
        pattern.days_of_week is None ==> (Pattern {
            days_of_week: Some(days_of_week),
            ..pattern
        }).accepts(parts) == (pattern.accepts(parts) && days_of_week.contains(parts.weekday)),
{
}

/// The same for whole dates. The added constraint is read against the day
/// that the pattern's offset leads to: the pattern with the constraint matches
/// a date exactly where the pattern without it does and that day meets the
/// constraint.
pub proof fn lemma_constraints_are_independent_on_dates(
    pattern: Pattern,
    date: Ymd,
    year: int,
    month: int,
    day: int,
    week_of_month: int,
    week_of_year: int,
    days_of_week: Set<Weekday>,
)
    ensures
        pattern.year is None ==> (Pattern { year: Some(year), ..pattern }).matches(date) == (
        pattern.matches(date) && effective_parts(pattern, date).year == year),
        pattern.month is None ==> (Pattern { month: Some(month), ..pattern }).matches(date) == (
        pattern.matches(date) && effective_parts(pattern, date).month == month),
        pattern.day is None ==> (Pattern { day: Some(day), ..pattern }).matches(date) == (
        pattern.matches(date) && effective_parts(pattern, date).day == day),
        pattern.week_of_month is None ==> (Pattern {
            week_of_month: Some(week_of_month),
            ..pattern
        }).matches(date) == (pattern.matches(date) && in_week_of_month(
            week_of_month,
            effective_parts(pattern, date),
        )),
        pattern.week_of_year is None ==> (Pattern {
            week_of_year: Some(week_of_year),
            ..pattern
        }).matches(date) == (pattern.matches(date) && effective_parts(pattern, date).iso_week
            == week_of_year),
        pattern.days_of_week is None ==> (Pattern {
            days_of_week: Some(days_of_week),
            ..pattern
        }).matches(date) == (pattern.matches(date) && days_of_week.contains(
            effective_parts(pattern, date).weekday,
        )),
{
    lemma_constraints_are_independent(
        pattern,
        effective_parts(pattern, date),
        year,
        month,
        day,
        week_of_month,
        week_of_year,
        days_of_week,
    );
}

/// A pattern for week 0 of the month matches no day.
pub proof fn lemma_week_zero_matches_nothing(pattern: Pattern, date: Ymd)
    requires
        pattern.week_of_month == Some(0int),
    ensures
        !pattern.matches(date),
        forall|parts: Parts| !pattern.accepts(parts),
{
}

/// The weeks of a month are stretches of seven days that do not overlap:
/// week `n` from the start holds the days `7n - 6` to `7n`, and week `-n`
/// holds the days from which `7n - 6` to `7n` days are left until the next
/// month begins.
pub proof fn lemma_weeks_are_stretches_of_seven(week: int, parts: Parts)
    ensures
        week > 0 ==> (in_week_of_month(week, parts) <==> 7 * week - 6 <= parts.day <= 7 * week),
        week < 0 ==> (in_week_of_month(week, parts) <==> parts.days_until_next_month is Some && 7
            * (-week) - 6 <= parts.days_until_next_month->Some_0 <= 7 * (-week)),
{
}

} // verus!
