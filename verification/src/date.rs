//! Release dates and how they are written in a cue sheet.
//!
//! The catalog fills the month and day it does not know with `01`, so a date
//! known to the year only arrives as the first of January. A date on the first
//! day of its year is therefore written as the year alone. A release that did
//! come out on a first of January cannot be told apart from one dated to the
//! year only, and is written as the year only too.

use vstd::prelude::*;
use crate::text::{push_signed_decimal, signed_decimal_text, two_digit_text, zero_padded_text};

verus! {

/// The earliest year of the calendar.
pub const MIN_YEAR: i32 = -262143;

/// The latest year of the calendar.
pub const MAX_YEAR: i32 = 262142;

/// Whether `year` is a leap year of the proleptic Gregorian calendar.
pub open spec fn is_leap_year(year: int) -> bool {
    year % 4 == 0 && (year % 100 != 0 || year % 400 == 0)
}

/// The number of days of `month` in `year`.
pub open spec fn days_in_month(year: int, month: int) -> int {
    if month == 2 {
        if is_leap_year(year) {
            29
        } else {
            28
        }
    } else if month == 4 || month == 6 || month == 9 || month == 11 {
        30
    } else {
        31
    }
}

/// Whether the calendar holds the day `day` of `month` in `year`.
pub open spec fn is_calendar_date(year: int, month: int, day: int) -> bool {
    &&& MIN_YEAR <= year <= MAX_YEAR
    &&& 1 <= month <= 12
    &&& 1 <= day <= days_in_month(year, month)
}

/// The number of days of `year` that lie before its month `month`.
pub open spec fn days_before_month(year: int, month: int) -> int
    decreases month,
{
    if month <= 1 {
        0
    } else {
        days_before_month(year, month - 1) + days_in_month(year, month - 1)
    }
}

/// The day of the year, counted from 1, of a calendar date.
pub open spec fn day_of_year(year: int, month: int, day: int) -> int {
    days_before_month(year, month) + day
}

/// The year of an ISO 8601 date: four digits from year 0 to year 9999, else
/// a sign and four or more digits.
pub open spec fn iso_year_text(year: int) -> Seq<char> {
    if 0 <= year <= 9999 {
        zero_padded_text(year as nat, 4)
    } else if year < 0 {
        seq!['-'] + zero_padded_text((-year) as nat, 4)
    } else {
        seq!['+'] + zero_padded_text(year as nat, 4)
    }
}

/// The full ISO 8601 form of a date, `YYYY-MM-DD`.
pub open spec fn iso_date_text(year: int, month: int, day: int) -> Seq<char> {
    iso_year_text(year) + seq!['-'] + two_digit_text(month as nat) + seq!['-'] + two_digit_text(
        day as nat,
    )
}

/// What is written for a date: the year alone on the first day of the year,
/// the full date on any other day.
pub open spec fn date_comment_text(date: DateModel) -> Seq<char> {
    if day_of_year(date.year, date.month, date.day) == 1 {
        signed_decimal_text(date.year)
    } else {
        iso_date_text(date.year, date.month, date.day)
    }
}

/// A date as year, month and day numbers.
pub struct DateModel {
    pub year: int,
    pub month: int,
    pub day: int,
}

/// A day of the proleptic Gregorian calendar.
#[derive(Clone, Copy, Debug)]
pub struct ReleaseDate {
    year: i32,
    month: u32,
    day: u32,
}

impl View for ReleaseDate {
    type V = DateModel;

    closed spec fn view(&self) -> DateModel {
        DateModel { year: self.year as int, month: self.month as int, day: self.day as int }
    }
}

impl DeepView for ReleaseDate {
    type V = DateModel;

    open spec fn deep_view(&self) -> DateModel {
        self@
    }
}

/// Calls chrono's `NaiveDate::from_ymd_opt` and says whether it gave a date.
/// By its source it gives none exactly where the year is outside chrono's
/// range, the month outside 1 to 12, or the day not a day of that month.
#[verifier::external_body]
fn calendar_has(year: i32, month: u32, day: u32) -> (r: bool)
    ensures
        r == is_calendar_date(year as int, month as int, day as int),
{
    chrono::NaiveDate::from_ymd_opt(year, month, day).is_some()
}

/// Calls chrono's `Datelike::ordinal` on the date that `NaiveDate::from_ymd_opt`
/// makes of the three numbers: the day of the year, counted from 1. There is
/// no result where chrono has no such date.
#[verifier::external_body]
fn calendar_ordinal(year: i32, month: u32, day: u32) -> (r: Option<u32>)
    ensures
        r is Some <==> is_calendar_date(year as int, month as int, day as int),
        r matches Some(n) ==> n == day_of_year(year as int, month as int, day as int),
{
    match chrono::NaiveDate::from_ymd_opt(year, month, day) {
        Some(date) => Some(chrono::Datelike::ordinal(&date)),
        None => None,
    }
}

/// Calls `to_string` on the date that chrono's `NaiveDate::from_ymd_opt` makes
/// of the three numbers, which goes through chrono's `Display` for `NaiveDate`:
/// the ISO 8601 form `YYYY-MM-DD`, the year signed where it is outside 0 to
/// 9999. There is no result where chrono has no such date.
#[verifier::external_body]
fn calendar_text(year: i32, month: u32, day: u32) -> (r: Option<String>)
    ensures
        r is Some <==> is_calendar_date(year as int, month as int, day as int),
        r matches Some(s) ==> s@ == iso_date_text(year as int, month as int, day as int),
{
    match chrono::NaiveDate::from_ymd_opt(year, month, day) {
        Some(date) => Some(date.to_string()),
        None => None,
    }
}

impl ReleaseDate {
    #[verifier::type_invariant]
    closed spec fn in_calendar(self) -> bool {
        is_calendar_date(self.year as int, self.month as int, self.day as int)
    }

    /// The date of the given year, month and day, if the calendar has it.
    pub fn new(year: i32, month: u32, day: u32) -> (r: Option<ReleaseDate>)
        ensures
            r is Some <==> is_calendar_date(year as int, month as int, day as int),
            r matches Some(date) ==> date@ == (DateModel {
                year: year as int,
                month: month as int,
                day: day as int,
            }),
    {
        if calendar_has(year, month, day) {
            Some(ReleaseDate { year, month, day })
        } else {
            None
        }
    }

    /// The year.
    pub fn year(&self) -> (r: i32)
        ensures
            r == self@.year,
    {
        self.year
    }

    /// The month, from 1.
    pub fn month(&self) -> (r: u32)
        ensures
            r == self@.month,
    {
        self.month
    }

    /// The day of the month, from 1.
    pub fn day(&self) -> (r: u32)
        ensures
            r == self@.day,
    {
        self.day
    }

    /// The day of the year, counted from 1. Every `ReleaseDate` is a date of
    /// the calendar, which the contract passes on to the caller.
    pub fn ordinal(&self) -> (r: u32)
        ensures
            is_calendar_date(self@.year, self@.month, self@.day),
            r == day_of_year(self@.year, self@.month, self@.day),
    {
        proof {
            use_type_invariant(self);
        }
        match calendar_ordinal(self.year, self.month, self.day) {
            Some(n) => n,
            // Not reached: every `ReleaseDate` is a date of the calendar.
            None => 1,
        }
    }

    /// The full date in ISO 8601 form.
    pub fn iso_text(&self) -> (r: String)
        ensures
            r@ == iso_date_text(self@.year, self@.month, self@.day),
    {
        proof {
            use_type_invariant(self);
        }
        match calendar_text(self.year, self.month, self.day) {
            Some(text) => text,
            // Not reached: every `ReleaseDate` is a date of the calendar.
            None => String::new(),
        }
    }

    /// The date as a cue sheet shows it: the year alone on the first day of
    /// the year, the full date otherwise.
    pub fn comment_text(&self) -> (r: String)
        ensures
            r@ == date_comment_text(self@),
    {
        if self.ordinal() == 1 {
            let mut out = String::new();
            push_signed_decimal(&mut out, self.year as i64);
            out
        } else {
            self.iso_text()
        }
    }
}

/// The days before a month are never negative, and from February on there
/// are at least 31 of them.
pub proof fn lemma_days_before_month(year: int, month: int)
    ensures
        days_before_month(year, month) >= 0,
        month >= 2 ==> days_before_month(year, month) >= 31,
    decreases month,
{
    if month > 1 {
        lemma_days_before_month(year, month - 1);
    }
}

/// A calendar date is the first day of its year exactly when it is the first
/// of January: such a date is written as the year alone, every other date in
/// full.
pub proof fn lemma_year_only_on_first_of_january(date: DateModel)
    requires
        is_calendar_date(date.year, date.month, date.day),
    ensures
        day_of_year(date.year, date.month, date.day) == 1 <==> date.month == 1 && date.day == 1,
        date.month == 1 && date.day == 1 ==> date_comment_text(date) == signed_decimal_text(
            date.year,
        ),
        !(date.month == 1 && date.day == 1) ==> date_comment_text(date) == iso_date_text(
            date.year,
            date.month,
            date.day,
        ),
{
    lemma_days_before_month(date.year, date.month);
}

} // verus!
