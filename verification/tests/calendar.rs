use lstc_calendar::{Calendar, CalendarEntry, Date, InvalidDate, Weekday};

#[derive(PartialEq, Clone, Copy, Debug)]
enum Day {
    Workday,
    Weekend,
    BankHoliday,
    Holiday(&'static str),
}

fn empty_calendar_returns_nothing(y: i32, m: u32, d: u32) {
    let subject = Calendar::<Day>::new();
    let expected: Option<&Day> = None;

    let day = Date::from_ymd(y, m, d).unwrap();
    let actual = subject.classify(day);

    assert_eq!(actual, expected);
}

#[test]
fn empty_calendar_returns_nothing_today() {
    empty_calendar_returns_nothing(2024, 2, 11);
}

#[test]
fn empty_calendar_returns_nothing_today_in_2000() {
    empty_calendar_returns_nothing(2000, 1, 11);
}

#[test]
fn empty_calendar_returns_nothing_back_to_the_future() {
    empty_calendar_returns_nothing(1955, 11, 5);
}

#[test]
fn empty_calendar_returns_nothing_back_to_the_future_ii() {
    empty_calendar_returns_nothing(2015, 11, 5);
}

#[test]
fn empty_calendar_returns_nothing_back_to_the_future_iii() {
    empty_calendar_returns_nothing(1885, 11, 5);
}

fn test_a_calender_with_entries(y: i32, m: u32, d: u32, expected: Option<Day>) {
    let mut subject = Calendar::<Day>::new();
    subject.add(CalendarEntry::all(Day::Workday));
    subject.add(CalendarEntry::days(
        Day::Weekend,
        vec![Weekday::Sun, Weekday::Sat],
    ));
    subject.add(CalendarEntry::new(
        Day::BankHoliday,
        None,
        Some(5),
        None,
        Some(1),
        Some(vec![Weekday::Mon]),
        0,
    ));
    subject.add(CalendarEntry::new(
        Day::BankHoliday,
        None,
        Some(5),
        None,
        Some(-1),
        Some(vec![Weekday::Mon]),
        0,
    ));

    let actual = subject.classify_ymd(y, m, d);

    assert_eq!(actual, Ok(expected.as_ref()));
}

#[test]
fn test_a_calender_with_entries_weekday() {
    test_a_calender_with_entries(2024, 2, 5, Some(Day::Workday));
}

#[test]
fn test_a_calender_with_entries_weekend() {
    test_a_calender_with_entries(2024, 2, 11, Some(Day::Weekend));
}

#[test]
fn test_a_calender_with_entries_early_may_bank_holiday() {
    test_a_calender_with_entries(2024, 5, 6, Some(Day::BankHoliday));
}

#[test]
fn test_a_calender_with_entries_late_may_bank_holiday() {
    test_a_calender_with_entries(2024, 5, 27, Some(Day::BankHoliday));
}

fn test_offset_date(year: i32, month: u32, day: u32, expected: Day) {
    let mut subject = Calendar::<Day>::new();
    subject.add(CalendarEntry::all(Day::Workday));
    subject.add(CalendarEntry::days(
        Day::Weekend,
        vec![Weekday::Sun, Weekday::Sun],
    ));
    subject.add(CalendarEntry::ymd(
        Day::Holiday("X-mas"),
        None,
        Some(12),
        Some(25),
    ));
    subject.add(CalendarEntry::ymd(
        Day::Holiday("X-ing"),
        None,
        Some(12),
        Some(26),
    ));
    subject.add(CalendarEntry::new(
        Day::Holiday("X-mas lieu"),
        None,
        Some(12),
        Some(25),
        None,
        Some(vec![Weekday::Sat, Weekday::Sun]),
        2,
    ));
    subject.add(CalendarEntry::new(
        Day::Holiday("X-ing lieu"),
        None,
        Some(12),
        Some(26),
        None,
        Some(vec![Weekday::Sat, Weekday::Sun]),
        2,
    ));

    let actual = subject.classify_ymd(year, month, day);

    assert_eq!(actual, Ok(Some(&expected)));
}

#[test]
fn test_offset_date_x_mas() {
    test_offset_date(2021, 12, 25, Day::Holiday("X-mas"));
}

#[test]
fn test_offset_date_x_ing() {
    test_offset_date(2021, 12, 26, Day::Holiday("X-ing"));
}

#[test]
fn test_offset_date_x_mas_lieu() {
    test_offset_date(2021, 12, 27, Day::Holiday("X-mas lieu"));
}

#[test]
fn test_offset_date_x_ing_lieu() {
    test_offset_date(2021, 12, 28, Day::Holiday("X-ing lieu"));
}

#[test]
fn default_calendar_is_empty() {
    let subject: Calendar<Day> = Default::default();
    assert!(subject.entries.is_empty());
    assert_eq!(subject.classify_ymd(2024, 2, 11), Ok(None));
}

#[test]
fn empty_calendar_gives_none_for_every_day_of_a_leap_year() {
    let subject = Calendar::<Day>::new();
    let lengths = [31, 29, 31, 30, 31, 30, 31, 31, 30, 31, 30, 31];
    let mut asked = 0;
    for month in 1..=12u32 {
        for day in 1..=lengths[(month - 1) as usize] {
            assert_eq!(subject.classify_ymd(2024, month, day), Ok(None));
            asked += 1;
        }
    }
    assert_eq!(asked, 366);
}

#[test]
fn classify_ymd_rejects_a_day_that_does_not_exist() {
    let mut subject = Calendar::<Day>::new();
    subject.add(CalendarEntry::all(Day::Workday));

    assert_eq!(
        subject.classify_ymd(2023, 2, 29),
        Err(InvalidDate { year: 2023, month: 2, day: 29 })
    );
    assert_eq!(
        subject.classify_ymd(2024, 13, 1),
        Err(InvalidDate { year: 2024, month: 13, day: 1 })
    );
    assert_eq!(
        subject.classify_ymd(2024, 0, 1),
        Err(InvalidDate { year: 2024, month: 0, day: 1 })
    );
    assert_eq!(
        subject.classify_ymd(2024, 4, 31),
        Err(InvalidDate { year: 2024, month: 4, day: 31 })
    );
    assert_eq!(
        subject.classify_ymd(2024, 4, 0),
        Err(InvalidDate { year: 2024, month: 4, day: 0 })
    );
    assert_eq!(subject.classify_ymd(2024, 2, 29), Ok(Some(&Day::Workday)));
}

#[test]
fn the_rule_added_last_decides() {
    let mut subject = Calendar::<&'static str>::new();
    subject.add(CalendarEntry::all("Workday"));
    subject.add(CalendarEntry::days(
        "Weekend",
        vec![Weekday::Sat, Weekday::Sun],
    ));

    assert_eq!(subject.classify_ymd(2024, 2, 11), Ok(Some(&"Weekend")));
    assert_eq!(subject.classify_ymd(2024, 2, 12), Ok(Some(&"Workday")));
}

#[test]
fn the_order_of_adding_is_the_order_of_precedence() {
    let mut first_then_second = Calendar::<u8>::new();
    first_then_second.add(CalendarEntry::ymd(1, None, Some(2), None));
    first_then_second.add(CalendarEntry::ymd(2, Some(2024), None, None));

    let mut second_then_first = Calendar::<u8>::new();
    second_then_first.add(CalendarEntry::ymd(2, Some(2024), None, None));
    second_then_first.add(CalendarEntry::ymd(1, None, Some(2), None));

    assert_eq!(first_then_second.classify_ymd(2024, 2, 11), Ok(Some(&2)));
    assert_eq!(second_then_first.classify_ymd(2024, 2, 11), Ok(Some(&1)));
    assert_eq!(first_then_second.classify_ymd(2023, 2, 11), Ok(Some(&1)));
    assert_eq!(second_then_first.classify_ymd(2024, 3, 11), Ok(Some(&2)));
    assert_eq!(first_then_second.classify_ymd(2023, 3, 11), Ok(None));
}

#[test]
fn add_puts_the_rule_in_front() {
    let mut subject = Calendar::<u8>::new();
    subject.add(CalendarEntry::all(1));
    subject.add(CalendarEntry::all(2));
    subject.add(CalendarEntry::all(3));

    let labels: Vec<u8> = subject.entries.iter().map(|e| e.classification).collect();
    assert_eq!(labels, vec![3, 2, 1]);
}

#[test]
fn asking_twice_gives_the_same_answer() {
    let mut subject = Calendar::<Day>::new();
    subject.add(CalendarEntry::all(Day::Workday));
    subject.add(CalendarEntry::days(
        Day::Weekend,
        vec![Weekday::Sat, Weekday::Sun],
    ));
    let sunday = Date::from_ymd(2024, 2, 11).unwrap();
    let monday = Date::from_ymd(2024, 2, 12).unwrap();

    let first = subject.classify(sunday);
    let between = subject.classify(monday);
    let second = subject.classify(sunday);

    assert_eq!(first, Some(&Day::Weekend));
    assert_eq!(between, Some(&Day::Workday));
    assert_eq!(first, second);
    assert_eq!(subject.entries.len(), 2);
}

#[test]
fn no_rule_matches_gives_none() {
    let mut subject = Calendar::<Day>::new();
    subject.add(CalendarEntry::days(
        Day::Weekend,
        vec![Weekday::Sat, Weekday::Sun],
    ));

    assert_eq!(subject.classify_ymd(2024, 2, 12), Ok(None));
}
