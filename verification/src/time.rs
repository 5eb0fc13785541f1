//! Offsets from midnight, times of day and instants.
//!
//! A stop-time gives its arrival and departure as an offset from the local
//! midnight of its service day. Such an offset may pass 24 hours: the visit
//! then falls on a later calendar day than the service day.

use crate::date::{digit_at, digit_value, is_digit, two_digits, two_digits_at, Date};
use crate::error::BoardError;
use vstd::prelude::*;

verus! {

/// The number of seconds of a day.
pub const SECONDS_PER_DAY: u32 = 86_400;

/// A span of time in whole seconds, counted from the midnight that begins a
/// service day.
#[derive(Clone, Copy, Debug, PartialEq, Eq, Structural)]
pub struct Duration {
    pub secs: u32,
}

impl Duration {
    /// The number of whole days in the span: by how many days a visit at
    /// this offset lies after its service day.
    pub open spec fn day_shift(self) -> int {
        self.secs as int / 86_400
    }

    /// What is left of the span once its whole days are taken off, in seconds.
    pub open spec fn within_day(self) -> int {
        self.secs as int % 86_400
    }

    /// A span is its whole days and what is left of it, and what is left is
    /// less than a day.
    pub proof fn law_days_and_rest(self)
        ensures
            self.day_shift() * 86_400 + self.within_day() == self.secs,
            0 <= self.within_day() < 86_400,
            0 <= self.day_shift(),
    {
    }

    /// The span of `secs` seconds.
    pub fn seconds(secs: u32) -> (r: Duration)
        ensures
            r.secs == secs,
    {
        Duration { secs }
    }

    /// The length of the span in seconds.
    pub fn num_seconds(&self) -> (n: u32)
        ensures
            n == self.secs,
    {
        self.secs
    }

    /// The number of whole days in the span.
    pub fn num_days(&self) -> (n: u32)
        ensures
            n == self.day_shift(),
    {
        self.secs / SECONDS_PER_DAY
    }
}

/// The character of the digit `value`, for a value from 0 to 9.
pub open spec fn digit_char(value: int) -> char {
    (value + 48) as u8 as char
}

/// A time as a clock shows it: two digits of hours, a colon, two digits of
/// minutes.
pub open spec fn clock_text(hour: int, minute: int) -> Seq<char> {
    seq![
        digit_char(hour / 10),
        digit_char(hour % 10),
        ':',
        digit_char(minute / 10),
        digit_char(minute % 10),
    ]
}

/// Calls `chrono::NaiveTime::format` with the pattern `%H:%M` on the time of
/// the given hour, minute and second, and makes a `String` of the result.
/// The pattern gives the hour and the minute, each padded with a zero to two
/// digits, with a colon between them.
#[verifier::external_body]
fn format_clock(hour: u32, minute: u32, second: u32) -> (text: String)
    requires
        hour < 24,
        minute < 60,
        second < 60,
    ensures
        text@ == clock_text(hour as int, minute as int),
{
    chrono::NaiveTime::from_hms_opt(hour, minute, second).unwrap().format("%H:%M").to_string()
}

/// A time of day in whole seconds. Its view is the number of seconds since
/// midnight, which is less than `SECONDS_PER_DAY`.
#[derive(Clone, Copy, Debug, PartialEq, Eq, Structural)]
pub struct Time {
    secs: u32,
}

impl View for Time {
    type V = int;

    closed spec fn view(&self) -> int {
        self.secs as int
    }
}

impl Time {
    /// A time of day is less than a day after midnight.
    #[verifier::type_invariant]
    spec fn within_day(self) -> bool {
        self.secs < 86_400
    }

    /// The time `secs` seconds after midnight, for use in contracts. It is
    /// meant for a number of seconds that is within a day.
    pub closed spec fn of(secs: int) -> Time {
        Time { secs: secs as u32 }
    }

    /// The view of `Time::of` is the number that it was given.
    pub proof fn lemma_of_view(secs: int)
        requires
            0 <= secs < SECONDS_PER_DAY,
        ensures
            Time::of(secs)@ == secs,
    {
    }

    /// Two times the same number of seconds after midnight are the same time.
    pub proof fn lemma_view_is_injective(a: Time, b: Time)
        requires
            a@ == b@,
        ensures
            a == b,
    {
    }

    /// Midnight, the beginning of the day.
    pub fn midnight() -> (r: Time)
        ensures
            r@ == 0,
    {
        Time { secs: 0 }
    }

    /// The time `secs` seconds after midnight, where that is within the day.
    pub fn from_seconds(secs: u32) -> (r: Option<Time>)
        ensures
            r is Some <==> secs < SECONDS_PER_DAY,
            r matches Some(t) ==> t == Time::of(secs as int) && t@ == secs,
    {
        if secs < SECONDS_PER_DAY {
            Some(Time { secs })
        } else {
            None
        }
    }

    /// The time of the given hour, minute and second, where the hour is less
    /// than 24 and minute and second are less than 60.
    pub fn from_hms(hour: u32, minute: u32, second: u32) -> (r: Option<Time>)
        ensures
            r is Some <==> hour < 24 && minute < 60 && second < 60,
            r matches Some(t) ==> t@ == hour * 3600 + minute * 60 + second,
    {
        if hour < 24 && minute < 60 && second < 60 {
            Some(Time { secs: hour * 3600 + minute * 60 + second })
        } else {
            None
        }
    }

    /// The number of seconds since midnight.
    pub fn seconds_from_midnight(&self) -> (n: u32)
        ensures
            n == self@,
            n < SECONDS_PER_DAY,
    {
        proof {
            use_type_invariant(self);
        }
        self.secs
    }

    /// The hour of the day, from 0 to 23.
    pub fn hour(&self) -> (h: u32)
        ensures
            h == self@ / 3600,
            h < 24,
    {
        proof {
            use_type_invariant(self);
        }
        self.secs / 3600
    }

    /// The minute of the hour, from 0 to 59.
    pub fn minute(&self) -> (m: u32)
        ensures
            m == (self@ % 3600) / 60,
            m < 60,
    {
        (self.secs % 3600) / 60
    }

    /// The time as a clock shows it, hours and minutes: `08:05`.
    pub fn to_clock_text(&self) -> (text: String)
        ensures
            text@ == clock_text(self@ / 3600, (self@ % 3600) / 60),
    {
        format_clock(self.hour(), self.minute(), self.second())
    }

    /// The time `seconds` seconds after this one, counted round the clock:
    /// past midnight the count goes on from 0.
    pub fn wrapping_add(&self, seconds: u32) -> (r: Time)
        ensures
            r@ == (self@ + seconds) % 86_400,
            r == Time::of((self@ + seconds) % 86_400),
    {
        proof {
            use_type_invariant(self);
        }
        let step: u32 = seconds % SECONDS_PER_DAY;
        Time { secs: (self.secs + step) % SECONDS_PER_DAY }
    }

    /// The time `seconds` seconds before this one, counted round the clock:
    /// before midnight the count goes on from the end of the day.
    pub fn wrapping_sub(&self, seconds: u32) -> (r: Time)
        ensures
            r@ == (self@ - seconds) % 86_400,
            r == Time::of((self@ - seconds) % 86_400),
    {
        proof {
            use_type_invariant(self);
        }
        let step: u32 = seconds % SECONDS_PER_DAY;
        Time { secs: (self.secs + (SECONDS_PER_DAY - step)) % SECONDS_PER_DAY }
    }

    /// The second of the minute, from 0 to 59.
    pub fn second(&self) -> (s: u32)
        ensures
            s == self@ % 60,
            s < 60,
    {
        self.secs % 60
    }
}

/// A calendar date together with a time of day.
#[derive(Clone, Copy, Debug, PartialEq, Eq, Structural)]
pub struct Instant {
    pub date: Date,
    pub time: Time,
}

impl Instant {
    /// Whether `self` comes strictly after `other`: on a later day, or later
    /// on the same day.
    pub open spec fn later_than(self, other: Instant) -> bool {
        other.date.precedes(self.date) || (self.date@ == other.date@ && self.time@ > other.time@)
    }

    /// The instant at `time` on `date`.
    pub fn new(date: Date, time: Time) -> (r: Instant)
        ensures
            r.date == date,
            r.time == time,
    {
        Instant { date, time }
    }

    /// Whether this instant comes strictly after `other`.
    pub fn is_after(&self, other: &Instant) -> (r: bool)
        ensures
            r == self.later_than(*other),
    {
        if other.date.is_before(&self.date) {
            true
        } else if self.date.is_before(&other.date) {
            false
        } else {
            self.time.seconds_from_midnight() > other.time.seconds_from_midnight()
        }
    }
}

/// Whether `text` has the shape of an offset: one or two digits of hours, a
/// colon, two digits of minutes, a colon, two digits of seconds, and nothing
/// else.
pub open spec fn is_offset_text(text: Seq<char>) -> bool {
    let start = text.len() - 6;
    &&& (text.len() == 7 || text.len() == 8)
    &&& forall|i: int| 0 <= i < start ==> is_digit(#[trigger] text[i])
    &&& text[start] == ':'
    &&& is_digit(text[start + 1])
    &&& is_digit(text[start + 2])
    &&& text[start + 3] == ':'
    &&& is_digit(text[start + 4])
    &&& is_digit(text[start + 5])
}

/// The hours that an offset text spells.
pub open spec fn offset_hours(text: Seq<char>) -> int {
    if text.len() == 8 {
        two_digits(text, 0)
    } else {
        digit_value(text[0])
    }
}

/// The number of seconds that an offset text spells: its hours, minutes and
/// seconds added up. Minutes and seconds count as written, also above 59.
pub open spec fn offset_seconds(text: Seq<char>) -> int {
    let start = text.len() - 6;
    offset_hours(text) * 3600 + two_digits(text, start + 1) * 60 + two_digits(text, start + 4)
}

/// Reads an offset of the shape `H:MM:SS` or `HH:MM:SS`.
///
/// The hours may pass 23. A text of any other shape is a `TimeFormatError`.
pub fn str_to_dur(val: &str) -> (r: Result<Duration, BoardError>)
    ensures
        match r {
            Ok(offset) => is_offset_text(val@) && offset.secs == offset_seconds(val@),
            Err(e) => !is_offset_text(val@) && e == BoardError::TimeFormatError,
        },
{
    let len: usize = val.unicode_len();
    if len != 7 && len != 8 {
        return Err(BoardError::TimeFormatError);
    }
    let start: usize = len - 6;
    let hours = if len == 8 {
        two_digits_at(val, 0)
    } else {
        digit_at(val, 0)
    };
    let minutes = two_digits_at(val, start + 1);
    let seconds = two_digits_at(val, start + 4);
    if val.get_char(start) != ':' || val.get_char(start + 3) != ':' {
        return Err(BoardError::TimeFormatError);
    }
    match (hours, minutes, seconds) {
        (Some(h), Some(m), Some(s)) => Ok(Duration { secs: h * 3600 + m * 60 + s }),
        _ => Err(BoardError::TimeFormatError),
    }
}

/// The instant at which a visit at `offset` shows on a board for
/// `reference_date`: the midnight of that date plus what the offset holds
/// beyond its whole days.
pub open spec fn wall_clock(offset: Duration, reference_date: Date) -> Instant {
    Instant { date: reference_date, time: Time::of(offset.within_day()) }
}

/// Places an offset on the reference date.
///
/// Returns the instant at which the visit shows on a board for
/// `reference_date`, which is that date's midnight plus what the offset holds
/// beyond its whole days, and the number of those whole days. The service
/// day of the visit lies that many days before `reference_date`. The time of
/// the reference plays no part in either.
pub fn adjust(offset: Duration, reference_date: Date, reference_time: Time) -> (r: (Instant, u32))
    ensures
        r.0 == wall_clock(offset, reference_date),
        r.0.date == reference_date,
        r.0.time@ == offset.within_day(),
        r.1 == offset.day_shift(),
{
    let _ = reference_time;
    let day_shift: u32 = offset.secs / SECONDS_PER_DAY;
    let time = Time { secs: offset.secs % SECONDS_PER_DAY };
    (Instant { date: reference_date, time }, day_shift)
}

} // verus!
