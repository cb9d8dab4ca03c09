//! Calendar dates, read and written by `chrono`.

use crate::json::optional_text_view;
use chrono::{Datelike, NaiveDate};
use std::str::FromStr;
use vstd::pervasive::unreached;
use vstd::prelude::*;

verus! {

/// A date of the calendar, given by its year, its month and its day of the
/// month.
///
/// Every value is a date that `chrono` takes for one: there is no 30th of
/// February among them.
#[derive(Debug, Clone, Copy, PartialEq, Eq, Structural)]
pub struct Date {
    year: i32,
    month: u32,
    day: u32,
}

/// The year, month and day that `chrono` reads from a text
/// (`NaiveDate::from_str`), if it reads a date.
pub uninterp spec fn date_parse(text: Seq<char>) -> Option<Date>;

/// The text that `chrono` displays for a year, a month and a day, if
/// `chrono` takes them for a date of the calendar
/// (`NaiveDate::from_ymd_opt`).
pub uninterp spec fn date_display(date: Date) -> Option<Seq<char>>;

/// A year, a month and a day that may be missing, as the date that they
/// would make.
spec fn parts_view(parts: Option<(i32, u32, u32)>) -> Option<Date> {
    match parts {
        Some((year, month, day)) => Some(Date { year, month, day }),
        None => None,
    }
}

/// Calls `NaiveDate::from_str`, which reads a date written as year, month
/// and day with hyphens between them, and takes the year, month and day of
/// what was read. The contract claims only that the outcome is the one that
/// [`date_parse`] names for this text. A text that is refused gives
/// nothing.
#[verifier::external_body]
fn parse_date(text: &str) -> (parts: Option<(i32, u32, u32)>)
    ensures
        parts_view(parts) == date_parse(text@),
{
    match NaiveDate::from_str(text) {
        Ok(date) => Some((date.year(), date.month(), date.day())),
        Err(_) => None,
    }
}

/// Calls `NaiveDate::from_ymd_opt` and, where that gives a date, its
/// `to_string`, which writes year, month and day with hyphens between
/// them. The contract claims only that the outcome is the one that
/// [`date_display`] names for this year, month and day.
#[verifier::external_body]
fn date_text(year: i32, month: u32, day: u32) -> (text: Option<String>)
    ensures
        optional_text_view(text) == date_display(Date { year, month, day }),
{
    match NaiveDate::from_ymd_opt(year, month, day) {
        Some(date) => Some(date.to_string()),
        None => None,
    }
}

/// The date that a text stands for: what `chrono` reads from it, if that is
/// a date of the calendar.
pub open spec fn date_read(text: Seq<char>) -> Option<Date> {
    match date_parse(text) {
        Some(date) => if date.in_calendar() {
            Some(date)
        } else {
            None
        },
        None => None,
    }
}

impl Date {
    #[verifier::type_invariant]
    spec fn wf(self) -> bool {
        self.in_calendar()
    }

    /// The value with the given year, month and day, which need not be a
    /// date of the calendar.
    pub closed spec fn of(year: i32, month: u32, day: u32) -> Date {
        Date { year, month, day }
    }

    /// The year, the month and the day.
    pub closed spec fn ymd(self) -> (i32, u32, u32) {
        (self.year, self.month, self.day)
    }

    /// Whether the value is a date of the calendar.
    pub open spec fn in_calendar(self) -> bool {
        date_display(self) is Some
    }

    /// Whether the date is read back from what is displayed for it.
    pub open spec fn reads_back(self) -> bool {
        date_display(self) matches Some(text) && date_parse(text) == Some(self)
    }

    /// A value is made of its year, month and day, and of nothing else.
    pub proof fn lemma_of_ymd(self)
        ensures
            Date::of(self.ymd().0, self.ymd().1, self.ymd().2) == self,
            forall|year: i32, month: u32, day: u32|
                (#[trigger] Date::of(year, month, day)).ymd() == (year, month, day),
    {
    }

    /// The date with the given year, month and day, if there is such a
    /// date in the calendar.
    pub fn from_ymd(year: i32, month: u32, day: u32) -> (date: Option<Date>)
        ensures
            date == if Date::of(year, month, day).in_calendar() {
                Some(Date::of(year, month, day))
            } else {
                None
            },
    {
        match date_text(year, month, day) {
            Some(_) => Some(Date { year, month, day }),
            None => None,
        }
    }

    /// Reads a date from a text such as `2024-01-31`.
    pub fn parse(text: &str) -> (date: Option<Date>)
        ensures
            date == date_read(text@),
    {
        match parse_date(text) {
            Some((year, month, day)) => Date::from_ymd(year, month, day),
            None => None,
        }
    }

    /// Writes the date as a text such as `2024-01-31`.
    pub fn to_text(&self) -> (text: String)
        ensures
            date_display(*self) == Some(text@),
    {
        proof {
            use_type_invariant(self);
        }
        match date_text(self.year, self.month, self.day) {
            Some(text) => text,
            None => unreached(),
        }
    }

    /// Whether the date is read back from the text that is written for it.
    pub fn is_read_back(&self) -> (read_back: bool)
        ensures
            read_back == self.reads_back(),
    {
        proof {
            use_type_invariant(self);
        }
        match Date::parse(self.to_text().as_str()) {
            Some(date) => date == *self,
            None => false,
        }
    }

    /// The year.
    pub fn year(&self) -> (year: i32)
        ensures
            year == self.ymd().0,
    {
        self.year
    }

    /// The month, from 1.
    pub fn month(&self) -> (month: u32)
        ensures
            month == self.ymd().1,
    {
        self.month
    }

    /// The day of the month, from 1.
    pub fn day(&self) -> (day: u32)
        ensures
            day == self.ymd().2,
    {
        self.day
    }
}

} // verus!
