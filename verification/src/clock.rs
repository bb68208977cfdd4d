//! The date and the time of day, as they are shown on the screen.

use chrono::{Datelike, Timelike};
use vstd::prelude::*;

use crate::messages::text_of;
use crate::text::{Chars, DisplayText, digit_char};

verus! {

/// The text that `chrono` makes of a date with the format `%a %d %b %Y`:
/// the short names of the weekday and the month around the day of the month,
/// then the year. The date is the `days`-th day of the common era; `None`
/// where `chrono` has no such date.
pub uninterp spec fn date_text(days: i32) -> Option<Seq<char>>;

/// `chrono::NaiveDate::from_num_days_from_ce_opt` gives the date that has
/// this number, if it is in range, and `format` with `%a %d %b %Y` writes it
/// out. The text depends on the number alone.
#[verifier::external_body]
fn format_date(days: i32) -> (r: Option<String>)
    ensures
        text_of(r) == date_text(days),
{
    match chrono::NaiveDate::from_num_days_from_ce_opt(days) {
        Some(date) => Some(date.format("%a %d %b %Y").to_string()),
        None => None,
    }
}

/// Whether `chrono` takes a number of seconds since midnight and a number of
/// nanoseconds for a time of day. A second may last up to two seconds where
/// it is the last of its minute, for a leap second.
pub open spec fn is_time_of_day(seconds: u32, nanoseconds: u32) -> bool {
    &&& seconds < 86_400
    &&& nanoseconds < 2_000_000_000
    &&& (nanoseconds < 1_000_000_000 || seconds % 60 == 59)
}

/// A number below a hundred in two decimal digits.
pub open spec fn two_digits(n: int) -> Seq<char> {
    seq![digit_char(n / 10), digit_char(n % 10)]
}

/// Hour and minute of a time of day, two digits each, with a colon between.
pub open spec fn clock_text(seconds: u32) -> Seq<char> {
    two_digits(seconds as int / 3600) + seq![':'] + two_digits(seconds as int / 60 % 60)
}

/// `chrono::NaiveTime::from_num_seconds_from_midnight_opt` gives the time of
/// day, if the numbers are in range, and `format` with `%R` writes its hour
/// and its minute in two digits each, with a colon between.
#[verifier::external_body]
fn format_time(seconds: u32, nanoseconds: u32) -> (r: Option<String>)
    ensures
        text_of(r) == if is_time_of_day(seconds, nanoseconds) {
            Some(clock_text(seconds))
        } else {
            None
        },
{
    match chrono::NaiveTime::from_num_seconds_from_midnight_opt(seconds, nanoseconds) {
        Some(time) => Some(time.format("%R").to_string()),
        None => None,
    }
}

/// A date, shown with weekday, day, month and year.
#[derive(Clone, Copy, Debug)]
pub struct DateFormatter {
    /// The number of the day in the common era: 1 is the first of January
    /// of the year 1.
    pub days: i32,
}

impl PartialEq for DateFormatter {
    fn eq(&self, other: &Self) -> (r: bool) {
        self.days == other.days
    }
}

impl Eq for DateFormatter {

}

impl vstd::std_specs::cmp::PartialEqSpecImpl for DateFormatter {
    open spec fn obeys_eq_spec() -> bool {
        true
    }

    open spec fn eq_spec(&self, other: &Self) -> bool {
        self.days == other.days
    }
}

impl DisplayText for DateFormatter {
    open spec fn text(&self) -> Chars {
        match date_text(self.days) {
            Some(text) => text,
            None => Seq::empty(),
        }
    }

    fn to_text(&self) -> (r: String) {
        match format_date(self.days) {
            Some(text) => text,
            None => String::new(),
        }
    }
}

/// A time of day, shown as hour and minute.
#[derive(Clone, Copy, Debug)]
pub struct TimeFormatter {
    /// Seconds since midnight.
    pub seconds: u32,
    /// Nanoseconds since the start of the second.
    pub nanoseconds: u32,
}

impl PartialEq for TimeFormatter {
    fn eq(&self, other: &Self) -> (r: bool) {
        self.seconds == other.seconds && self.nanoseconds == other.nanoseconds
    }
}

impl Eq for TimeFormatter {

}

impl vstd::std_specs::cmp::PartialEqSpecImpl for TimeFormatter {
    open spec fn obeys_eq_spec() -> bool {
        true
    }

    open spec fn eq_spec(&self, other: &Self) -> bool {
        self.seconds == other.seconds && self.nanoseconds == other.nanoseconds
    }
}

impl DisplayText for TimeFormatter {
    open spec fn text(&self) -> Chars {
        if is_time_of_day(self.seconds, self.nanoseconds) {
            clock_text(self.seconds)
        } else {
            Seq::empty()
        }
    }

    fn to_text(&self) -> (r: String) {
        match format_time(self.seconds, self.nanoseconds) {
            Some(text) => text,
            None => String::new(),
        }
    }
}

/// `chrono::Local::now` reads the clock of the machine; this is the date it
/// shows, in local time. Which date it is nobody knows beforehand, but it
/// is one of the dates that `chrono` has, and so one that it can write out.
/// On a machine whose clock stands before the year 1970 `chrono` gives up.
#[verifier::external_body]
pub(crate) fn local_date() -> (r: DateFormatter)
    ensures
        date_text(r.days) is Some,
{
    DateFormatter { days: chrono::Local::now().naive_local().date().num_days_from_ce() }
}

/// `chrono::Local::now` reads the clock of the machine; this is the time of
/// day it shows, in local time. Which time it is nobody knows beforehand,
/// but it is a time of day: the clock of the machine counts no leap
/// seconds, and the local offset leaves the part below the second alone.
/// On a machine whose clock stands before the year 1970 `chrono` gives up.
#[verifier::external_body]
pub(crate) fn local_time() -> (r: TimeFormatter)
    ensures
        is_time_of_day(r.seconds, r.nanoseconds),
{
    let time = chrono::Local::now().time();
    TimeFormatter { seconds: time.num_seconds_from_midnight(), nanoseconds: time.nanosecond() }
}

} // verus!
