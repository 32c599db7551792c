//! Classification of calendar dates by an ordered set of matching rules.
//!
//! A [`Calendar`] holds rules, each a [`CalendarEntry`]: a pattern over a
//! date together with the label that the rule gives to the dates it matches.
//! The rule added last is asked first, so that broad rules ("every day is a
//! workday") can be laid down first and overridden by narrower ones
//! ("Saturdays and Sundays", then single holidays, then the days taken in
//! lieu of holidays that fall on a weekend).
//!
//! The calendar arithmetic itself (which days exist, the day a number of days
//! earlier, the weekday, the ISO week) is chrono's. Every call into chrono
//! stands in [`gregorian`], behind a function whose contract is believed, not
//! proved; everything else is proved against those contracts.

pub mod calendar;
pub mod date;
pub mod entry;
pub mod gregorian;
pub mod laws;

pub use calendar::Calendar;
pub use date::{Date, DateParts, InvalidDate, Weekday};
pub use entry::CalendarEntry;
