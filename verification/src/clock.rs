//! Times of day as the board shows them, and how long it is from one to the next.

use vstd::prelude::*;
use vstd::string::*;

verus! {

/// A time of day, to the minute.
#[derive(Clone, Copy, Debug, PartialEq, Eq, Structural)]
pub struct TimeOfDay {
    pub hour: u8,
    pub minute: u8,
}

/// A calendar date as its three numbers.
#[derive(Clone, Copy, Debug, PartialEq, Eq, Structural)]
pub struct CalendarDate {
    pub year: i32,
    pub month: u32,
    pub day: u32,
}

/// The number of minutes in a day.
pub const MINUTES_PER_DAY: u16 = 1440;

/// What chrono reads from `text` under the format `%H:%M`: the time, or `None`
/// where it reports an error.
pub uninterp spec fn clock_reading(text: Seq<char>) -> Option<TimeOfDay>;

/// What chrono reads from `text` under the format `%Y-%m-%d`: the date, or
/// `None` where it reports an error.
pub uninterp spec fn date_reading(text: Seq<char>) -> Option<CalendarDate>;

/// How long it is from `reference` to `scheduled`, in minutes; a time that is
/// earlier in the day counts as that time on the next day.
pub open spec fn minutes_between(reference: TimeOfDay, scheduled: TimeOfDay) -> int {
    (scheduled.minute_of_day() - reference.minute_of_day()) % 1440
}

impl TimeOfDay {
    /// The hour is below 24 and the minute below 60.
    pub open spec fn wf(self) -> bool {
        self.hour < 24 && self.minute < 60
    }

    /// Minutes since midnight.
    pub open spec fn minute_of_day(self) -> int {
        self.hour * 60 + self.minute
    }

    /// Whether `self` comes strictly earlier in the day than `other`.
    pub open spec fn earlier_than(self, other: TimeOfDay) -> bool {
        self.minute_of_day() < other.minute_of_day()
    }

    /// The time `hour:minute`, where there is such a time of day.
    pub fn new(hour: u8, minute: u8) -> (r: Option<TimeOfDay>)
        ensures
            r is Some <==> hour < 24 && minute < 60,
            r matches Some(t) ==> t.hour == hour && t.minute == minute && t.wf(),
    {
        if hour < 24 && minute < 60 {
            Some(TimeOfDay { hour, minute })
        } else {
            None
        }
    }

    /// Minutes since midnight.
    pub fn minutes(&self) -> (m: u16)
        requires
            self.wf(),
        ensures
            m == self.minute_of_day(),
            m < 1440,
    {
        let h: u16 = self.hour.into();
        let m: u16 = self.minute.into();
        h * 60 + m
    }

    /// Whether `self` comes strictly earlier in the day than `other`.
    pub fn is_before(&self, other: &TimeOfDay) -> (b: bool)
        requires
            self.wf(),
            other.wf(),
        ensures
            b == self.earlier_than(*other),
    {
        self.minutes() < other.minutes()
    }

    /// Reads a time written as `HH:MM`.
    pub fn parse(text: &str) -> (r: Option<TimeOfDay>)
        ensures
            r == clock_reading(text@),
            r matches Some(t) ==> t.wf(),
    {
        read_clock(text)
    }
}

/// Minutes from `reference` until `scheduled`, wrapping over midnight.
pub fn minutes_until(reference: &TimeOfDay, scheduled: &TimeOfDay) -> (delta: u16)
    requires
        reference.wf(),
        scheduled.wf(),
    ensures
        delta == minutes_between(*reference, *scheduled),
        delta < 1440,
        !scheduled.earlier_than(*reference) ==> delta == scheduled.minute_of_day()
            - reference.minute_of_day(),
        scheduled.earlier_than(*reference) ==> delta == 1440 + scheduled.minute_of_day()
            - reference.minute_of_day(),
{
    let r = reference.minutes();
    let s = scheduled.minutes();
    if s >= r {
        s - r
    } else {
        MINUTES_PER_DAY - r + s
    }
}

/// Calls chrono's `NaiveTime::parse_from_str` with the format `%H:%M` and takes
/// the hour and the minute of what it returns. The contract names the outcome
/// and claims the ranges that chrono documents for `hour()` and `minute()`;
/// that chrono accepts a given text is claimed nowhere.
#[verifier::external_body]
fn read_clock(text: &str) -> (r: Option<TimeOfDay>)
    ensures
        r == clock_reading(text@),
        r matches Some(t) ==> t.hour < 24 && t.minute < 60,
{
    match chrono::NaiveTime::parse_from_str(text, "%H:%M") {
        Ok(t) => Some(
            TimeOfDay {
                hour: chrono::Timelike::hour(&t) as u8,
                minute: chrono::Timelike::minute(&t) as u8,
            },
        ),
        Err(_) => None,
    }
}

/// Calls chrono's `NaiveDate::parse_from_str` with the format `%Y-%m-%d` and
/// takes year, month and day of what it returns. The contract only names the
/// outcome.
#[verifier::external_body]
fn read_date(text: &str) -> (r: Option<CalendarDate>)
    ensures
        r == date_reading(text@),
{
    match chrono::NaiveDate::parse_from_str(text, "%Y-%m-%d") {
        Ok(d) => Some(
            CalendarDate {
                year: chrono::Datelike::year(&d),
                month: chrono::Datelike::month(&d),
                day: chrono::Datelike::day(&d),
            },
        ),
        Err(_) => None,
    }
}

/// The message for a time that is not written as `HH:MM`.
pub open spec fn time_format_message() -> Seq<char> {
    "Incorrect time format, time must be in HH:MM format. Please try again."@
}

/// The message for a date that is not written as `YYYY-MM-DD`.
pub open spec fn date_format_message() -> Seq<char> {
    "Incorrect date format, date must be in YYYY-MM-DD format. Please try again."@
}

/// Accepts `time` exactly where it reads as a time of day.
pub fn validate_time(time: &str) -> (r: Result<(), String>)
    ensures
        r is Ok <==> clock_reading(time@) is Some,
        r matches Err(m) ==> m@ == time_format_message(),
{
    validated_time(read_clock(time))
}

/// The verdict on a time, given what was read from it.
pub fn validated_time(reading: Option<TimeOfDay>) -> (r: Result<(), String>)
    ensures
        r is Ok <==> reading is Some,
        r matches Err(m) ==> m@ == time_format_message(),
{
    match reading {
        Some(_) => Ok(()),
        None => Err(
            String::from_str(
                "Incorrect time format, time must be in HH:MM format. Please try again.",
            ),
        ),
    }
}

/// Accepts `date` exactly where it reads as a calendar date.
pub fn validate_date(date: &str) -> (r: Result<(), String>)
    ensures
        r is Ok <==> date_reading(date@) is Some,
        r matches Err(m) ==> m@ == date_format_message(),
{
    validated_date(read_date(date))
}

/// The verdict on a date, given what was read from it.
pub fn validated_date(reading: Option<CalendarDate>) -> (r: Result<(), String>)
    ensures
        r is Ok <==> reading is Some,
        r matches Err(m) ==> m@ == date_format_message(),
{
    match reading {
        Some(_) => Ok(()),
        None => Err(
            String::from_str(
                "Incorrect date format, date must be in YYYY-MM-DD format. Please try again.",
            ),
        ),
    }
}

} // verus!
