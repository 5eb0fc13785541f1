//! Calendar dates of the proleptic Gregorian calendar.
//!
//! A `Date` holds year, month and day as plain numbers. Which dates exist is
//! stated here in full; on which weekday a date falls, and which date lies a
//! number of days before or after another, is computed by `chrono` and goes
//! by a name in the contracts.

use crate::error::BoardError;
use chrono::Datelike;
use vstd::prelude::*;

verus! {

/// The first year that a `Date` can hold.
pub const MIN_YEAR: i32 = -262_143;

/// The last year that a `Date` can hold.
pub const MAX_YEAR: i32 = 262_142;

/// Whether `year` has a 29th of February.
pub open spec fn is_leap_year(year: int) -> bool {
    year % 4 == 0 && (year % 100 != 0 || year % 400 == 0)
}

/// The number of days of `month` in `year`, for a month from 1 to 12.
pub open spec fn days_in_month(year: int, month: int) -> int {
    if month == 2 {
        if is_leap_year(year) {
            29
        } else {
            28
        }
    } else if month == 4 || month == 6 || month == 9 || month == 11 {
        30
    } else {
        31
    }
}

/// Whether year, month and day name a day of the calendar that a `Date` can
/// hold.
pub open spec fn is_calendar_date(year: int, month: int, day: int) -> bool {
    &&& MIN_YEAR <= year <= MAX_YEAR
    &&& 1 <= month <= 12
    &&& 1 <= day <= days_in_month(year, month)
}

/// The weekday of a calendar date as `chrono` gives it: the number of days
/// since the last Monday, from 0 for a Monday to 6 for a Sunday.
pub uninterp spec fn weekday_number(year: int, month: int, day: int) -> int;

/// The calendar date that lies `days` days before the given one, as `chrono`
/// gives it; `None` where that date would be out of the calendar's range.
pub uninterp spec fn date_minus_days(year: int, month: int, day: int, days: int) -> Option<
    (int, int, int),
>;

/// The calendar date that lies `days` days after the given one, as `chrono`
/// gives it; `None` where that date would be out of the calendar's range.
pub uninterp spec fn date_plus_days(year: int, month: int, day: int, days: int) -> Option<
    (int, int, int),
>;

/// Calls `chrono::NaiveDate::from_ymd_opt` and says whether it gave a date.
/// It gives one exactly for the days that exist in the calendar, with the
/// year in `MIN_YEAR..=MAX_YEAR`.
#[verifier::external_body]
fn calendar_holds(year: i32, month: u32, day: u32) -> (known: bool)
    ensures
        known == is_calendar_date(year as int, month as int, day as int),
{
    chrono::NaiveDate::from_ymd_opt(year, month, day).is_some()
}

/// Calls `chrono::NaiveDate::weekday` on the given date and
/// `chrono::Weekday::num_days_from_monday` on what it returns. The result is
/// named `weekday_number`; it counts from Monday as 0 to Sunday as 6.
#[verifier::external_body]
fn calendar_weekday(year: i32, month: u32, day: u32) -> (index: u32)
    requires
        is_calendar_date(year as int, month as int, day as int),
    ensures
        index == weekday_number(year as int, month as int, day as int),
        index < 7,
{
    chrono::NaiveDate::from_ymd_opt(year, month, day).unwrap().weekday().num_days_from_monday()
}

/// Calls `chrono::NaiveDate::checked_sub_days` on the given date. The result
/// is named `date_minus_days`; where there is one, it is again a day of the
/// calendar.
#[verifier::external_body]
fn calendar_minus_days(year: i32, month: u32, day: u32, days: u32) -> (earlier: Option<
    (i32, u32, u32),
>)
    requires
        is_calendar_date(year as int, month as int, day as int),
    ensures
        match earlier {
            Some(t) => date_minus_days(year as int, month as int, day as int, days as int) == Some(
                (t.0 as int, t.1 as int, t.2 as int),
            ) && is_calendar_date(t.0 as int, t.1 as int, t.2 as int),
            None => date_minus_days(year as int, month as int, day as int, days as int) is None,
        },
{
    let date = chrono::NaiveDate::from_ymd_opt(year, month, day).unwrap();
    match date.checked_sub_days(chrono::Days::new(days as u64)) {
        Some(d) => Some((d.year(), d.month(), d.day())),
        None => None,
    }
}

/// Calls `chrono::NaiveDate::checked_add_days` on the given date. The result
/// is named `date_plus_days`; where there is one, it is again a day of the
/// calendar.
#[verifier::external_body]
fn calendar_plus_days(year: i32, month: u32, day: u32, days: u32) -> (later: Option<
    (i32, u32, u32),
>)
    requires
        is_calendar_date(year as int, month as int, day as int),
    ensures
        match later {
            Some(t) => date_plus_days(year as int, month as int, day as int, days as int) == Some(
                (t.0 as int, t.1 as int, t.2 as int),
            ) && is_calendar_date(t.0 as int, t.1 as int, t.2 as int),
            None => date_plus_days(year as int, month as int, day as int, days as int) is None,
        },
{
    let date = chrono::NaiveDate::from_ymd_opt(year, month, day).unwrap();
    match date.checked_add_days(chrono::Days::new(days as u64)) {
        Some(d) => Some((d.year(), d.month(), d.day())),
        None => None,
    }
}

/// A day of the calendar. Its view is the triple of year, month and day.
#[derive(Clone, Copy, Debug, PartialEq, Eq, Structural)]
pub struct Date {
    year: i32,
    month: u32,
    day: u32,
}

impl View for Date {
    type V = (int, int, int);

    closed spec fn view(&self) -> (int, int, int) {
        (self.year as int, self.month as int, self.day as int)
    }
}

impl Date {
    /// Every `Date` is a day that exists.
    #[verifier::type_invariant]
    spec fn exists_in_calendar(self) -> bool {
        is_calendar_date(self.year as int, self.month as int, self.day as int)
    }

    /// Whether `self` is an earlier day than `other`.
    pub open spec fn precedes(self, other: Date) -> bool {
        let (y1, m1, d1) = self@;
        let (y2, m2, d2) = other@;
        y1 < y2 || (y1 == y2 && (m1 < m2 || (m1 == m2 && d1 < d2)))
    }

    /// The weekday of `self`, from 0 for Monday to 6 for Sunday.
    pub open spec fn weekday(self) -> int {
        weekday_number(self@.0, self@.1, self@.2)
    }

    /// The date of the given year, month and day, for use in contracts. It
    /// is meant for a triple that names a day of the calendar.
    pub closed spec fn of(year: int, month: int, day: int) -> Date {
        Date { year: year as i32, month: month as u32, day: day as u32 }
    }

    /// The view of `Date::of` is the triple that it was given.
    pub proof fn lemma_of_view(year: int, month: int, day: int)
        requires
            is_calendar_date(year, month, day),
        ensures
            Date::of(year, month, day)@ == (year, month, day),
    {
    }

    /// The day that lies `days` days before `self`, where the calendar holds
    /// it.
    pub open spec fn earlier_by(self, days: int) -> Option<Date> {
        match date_minus_days(self@.0, self@.1, self@.2, days) {
            Some(t) => Some(Date::of(t.0, t.1, t.2)),
            None => None,
        }
    }

    /// The day that lies `days` days after `self`, where the calendar holds
    /// it.
    pub open spec fn later_by(self, days: int) -> Option<Date> {
        match date_plus_days(self@.0, self@.1, self@.2, days) {
            Some(t) => Some(Date::of(t.0, t.1, t.2)),
            None => None,
        }
    }

    /// Two dates with the same year, month and day are the same date.
    pub proof fn lemma_view_is_injective(a: Date, b: Date)
        requires
            a@ == b@,
        ensures
            a == b,
    {
    }

    /// The date of the given year, month and day, where the calendar has such
    /// a day.
    pub fn from_ymd(year: i32, month: u32, day: u32) -> (r: Option<Date>)
        ensures
            r is Some <==> is_calendar_date(year as int, month as int, day as int),
            r matches Some(d) ==> d == Date::of(year as int, month as int, day as int) && d@ == (
                year as int,
                month as int,
                day as int,
            ),
    {
        if calendar_holds(year, month, day) {
            Some(Date { year, month, day })
        } else {
            None
        }
    }

    /// The year of the date.
    pub fn year(&self) -> (y: i32)
        ensures
            y == self@.0,
            MIN_YEAR <= y <= MAX_YEAR,
    {
        proof {
            use_type_invariant(self);
        }
        self.year
    }

    /// The month of the date, from 1 to 12.
    pub fn month(&self) -> (m: u32)
        ensures
            m == self@.1,
            1 <= m <= 12,
    {
        proof {
            use_type_invariant(self);
        }
        self.month
    }

    /// The day of the month, from 1.
    pub fn day(&self) -> (d: u32)
        ensures
            d == self@.2,
            1 <= d <= days_in_month(self@.0, self@.1),
    {
        proof {
            use_type_invariant(self);
        }
        self.day
    }

    /// The weekday on which the date falls, from 0 for Monday to 6 for
    /// Sunday.
    pub fn weekday_index(&self) -> (index: u32)
        ensures
            index == self.weekday(),
            index < 7,
    {
        proof {
            use_type_invariant(self);
        }
        calendar_weekday(self.year, self.month, self.day)
    }

    /// The date `days` days before this one; `None` where the calendar does
    /// not reach that far back.
    pub fn minus_days(&self, days: u32) -> (r: Option<Date>)
        ensures
            r == self.earlier_by(days as int),
    {
        proof {
            use_type_invariant(self);
        }
        match calendar_minus_days(self.year, self.month, self.day, days) {
            Some(t) => Some(Date { year: t.0, month: t.1, day: t.2 }),
            None => None,
        }
    }

    /// The date `days` days after this one; `None` where the calendar does
    /// not reach that far.
    pub fn plus_days(&self, days: u32) -> (r: Option<Date>)
        ensures
            r == self.later_by(days as int),
    {
        proof {
            use_type_invariant(self);
        }
        match calendar_plus_days(self.year, self.month, self.day, days) {
            Some(t) => Some(Date { year: t.0, month: t.1, day: t.2 }),
            None => None,
        }
    }

    /// Whether this date is an earlier day than `other`.
    pub fn is_before(&self, other: &Date) -> (r: bool)
        ensures
            r == self.precedes(*other),
    {
        self.year < other.year || (self.year == other.year && (self.month < other.month || (
        self.month == other.month && self.day < other.day)))
    }
}

/// Whether `c` is one of the ten digits `0` to `9`.
pub open spec fn is_digit(c: char) -> bool {
    '0' <= c && c <= '9'
}

/// The value of the digit `c`.
pub open spec fn digit_value(c: char) -> int {
    c as int - '0' as int
}

/// The number that the two digits at `at` and `at + 1` of `text` spell.
pub open spec fn two_digits(text: Seq<char>, at: int) -> int {
    digit_value(text[at]) * 10 + digit_value(text[at + 1])
}

/// The year that the first four characters of `text` spell.
pub open spec fn text_year(text: Seq<char>) -> int {
    two_digits(text, 0) * 100 + two_digits(text, 2)
}

/// The date that a text in the eight-digit encoding spells.
pub open spec fn date_of_text(text: Seq<char>) -> Date {
    Date::of(text_year(text), two_digits(text, 4), two_digits(text, 6))
}

/// Whether `text` is a date in the eight-digit encoding: four digits of
/// year, two of month, two of day, naming a day that exists.
pub open spec fn is_date_text(text: Seq<char>) -> bool {
    &&& text.len() == 8
    &&& forall|i: int| 0 <= i < 8 ==> is_digit(#[trigger] text[i])
    &&& is_calendar_date(text_year(text), two_digits(text, 4), two_digits(text, 6))
}

/// The value of the digit at `at`, or `None` where the character there is no
/// digit.
pub(crate) fn digit_at(text: &str, at: usize) -> (r: Option<u32>)
    requires
        at < text@.len(),
    ensures
        match r {
            Some(v) => is_digit(text@[at as int]) && v == digit_value(text@[at as int]) && v <= 9,
            None => !is_digit(text@[at as int]),
        },
{
    let c: char = text.get_char(at);
    if '0' <= c && c <= '9' {
        Some(c as u32 - '0' as u32)
    } else {
        None
    }
}

/// The number that the two characters at `at` and `at + 1` spell, or `None`
/// where one of them is no digit.
pub(crate) fn two_digits_at(text: &str, at: usize) -> (r: Option<u32>)
    requires
        at + 1 < text@.len(),
        at < usize::MAX,
    ensures
        match r {
            Some(v) => is_digit(text@[at as int]) && is_digit(text@[at + 1]) && v == two_digits(
                text@,
                at as int,
            ) && v <= 99,
            None => !is_digit(text@[at as int]) || !is_digit(text@[at + 1]),
        },
{
    match digit_at(text, at) {
        Some(high) => match digit_at(text, at + 1) {
            Some(low) => Some(high * 10 + low),
            None => None,
        },
        None => None,
    }
}

/// Reads a date in the eight-digit encoding `YYYYMMDD`.
///
/// The text must be exactly eight digits and name a day that exists;
/// anything else is a `DateFormatError`.
pub fn str_to_date(val: &str) -> (r: Result<Date, BoardError>)
    ensures
        match r {
            Ok(date) => is_date_text(val@) && date == date_of_text(val@) && date@ == (
                text_year(val@),
                two_digits(val@, 4),
                two_digits(val@, 6),
            ),
            Err(e) => !is_date_text(val@) && e == BoardError::DateFormatError,
        },
{
    if val.unicode_len() != 8 {
        return Err(BoardError::DateFormatError);
    }
    let century = two_digits_at(val, 0);
    let decade = two_digits_at(val, 2);
    let month = two_digits_at(val, 4);
    let day = two_digits_at(val, 6);
    match (century, decade, month, day) {
        (Some(c), Some(y), Some(m), Some(d)) => {
            let year: u32 = c * 100 + y;
            match Date::from_ymd(year as i32, m, d) {
                Some(date) => Ok(date),
                None => Err(BoardError::DateFormatError),
            }
        },
        _ => Err(BoardError::DateFormatError),
    }
}

} // verus!
