//! Clock readings and the calendar they live in.

use chrono::{Datelike, Timelike};
use serenity::model::Timestamp;
use vstd::prelude::*;

verus! {

/// Hours that the hour stage adds to a reading's hour before it compares it
/// with the target's.
pub const UTC_OFFSET: u32 = 2;

/// The first year that a clock reading may show.
pub const MIN_YEAR: i32 = 1;

/// The last year that a clock reading may show.
pub const MAX_YEAR: i32 = 9999;

/// Whether `year` has a 29th of February in the proleptic Gregorian
/// calendar.
pub open spec fn is_leap_year(year: int) -> bool {
    year % 4 == 0 && (year % 100 != 0 || year % 400 == 0)
}

/// Length of a month of the proleptic Gregorian calendar; `month` counts from 1.
pub open spec fn days_in_month(year: int, month: int) -> int {
    if month == 2 {
        if is_leap_year(year) { 29 } else { 28 }
    } else if month == 4 || month == 6 || month == 9 || month == 11 {
        30
    } else {
        31
    }
}

/// Whether `year`-`month`-`day` names a day of the calendar.
pub open spec fn is_calendar_date(year: int, month: int, day: int) -> bool {
    1 <= month <= 12 && 1 <= day <= days_in_month(year, month)
}

/// A day, named by its year, its month and its day of the month.
pub struct Date {
    pub year: int,
    pub month: int,
    pub day: int,
}

/// The day after `year`-`month`-`day`.
pub open spec fn following_day(year: int, month: int, day: int) -> Date {
    if day < days_in_month(year, month) {
        Date { year, month, day: day + 1 }
    } else if month < 12 {
        Date { year, month: month + 1, day: 1 }
    } else {
        Date { year: year + 1, month: 1, day: 1 }
    }
}

/// What a clock reading is: the fields of a wall-clock instant.
pub struct Reading {
    pub year: int,
    pub month: int,
    pub day: int,
    pub hour: int,
    pub minute: int,
    pub second: int,
}

impl Reading {
    /// A reading is valid when it names a second of a day of the calendar,
    /// in a year of four digits.
    pub open spec fn valid(self) -> bool {
        &&& MIN_YEAR <= self.year <= MAX_YEAR
        &&& is_calendar_date(self.year, self.month, self.day)
        &&& 0 <= self.hour <= 23
        &&& 0 <= self.minute <= 59
        &&& 0 <= self.second <= 59
    }
}

/// The reading with these fields.
pub open spec fn reading_of(
    year: i32,
    month: u32,
    day: u32,
    hour: u32,
    minute: u32,
    second: u32,
) -> Reading {
    Reading {
        year: year as int,
        month: month as int,
        day: day as int,
        hour: hour as int,
        minute: minute as int,
        second: second as int,
    }
}

/// One reading of the wall clock, field by field, as the clock reports it.
#[derive(Clone, Copy, Debug)]
pub struct LocalInstant {
    year: i32,
    month: u32,
    day: u32,
    hour: u32,
    minute: u32,
    second: u32,
}

impl View for LocalInstant {
    type V = Reading;

    closed spec fn view(&self) -> Reading {
        Reading {
            year: self.year as int,
            month: self.month as int,
            day: self.day as int,
            hour: self.hour as int,
            minute: self.minute as int,
            second: self.second as int,
        }
    }
}

/// Whether `year` has a 29th of February.
pub fn leap_year(year: i32) -> (leap: bool)
    ensures
        leap == is_leap_year(year as int),
{
    year % 4 == 0 && (year % 100 != 0 || year % 400 == 0)
}

/// How many days month `month` of `year` has.
pub fn month_length(year: i32, month: u32) -> (days: u32)
    ensures
        days == days_in_month(year as int, month as int),
{
    if month == 2 {
        if leap_year(year) { 29 } else { 28 }
    } else if month == 4 || month == 6 || month == 9 || month == 11 {
        30
    } else {
        31
    }
}

impl LocalInstant {
    #[verifier::type_invariant]
    spec fn inv(self) -> bool {
        self@.valid()
    }

    /// Builds a reading from its fields, if they name an instant.
    pub fn new(year: i32, month: u32, day: u32, hour: u32, minute: u32, second: u32) -> (r: Option<
        LocalInstant,
    >)
        ensures
            r is Some <==> reading_of(year, month, day, hour, minute, second).valid(),
            r matches Some(t) ==> t@ == reading_of(year, month, day, hour, minute, second),
    {
        if MIN_YEAR <= year && year <= MAX_YEAR && 1 <= month && month <= 12 && 1 <= day && day
            <= month_length(year, month) && hour <= 23 && minute <= 59 && second <= 59 {
            Some(LocalInstant { year, month, day, hour, minute, second })
        } else {
            None
        }
    }

    pub fn year(&self) -> (y: i32)
        ensures
            y == self@.year,
            self@.valid(),
    {
        proof {
            use_type_invariant(self);
        }
        self.year
    }

    pub fn month(&self) -> (m: u32)
        ensures
            m == self@.month,
            self@.valid(),
    {
        proof {
            use_type_invariant(self);
        }
        self.month
    }

    pub fn day(&self) -> (d: u32)
        ensures
            d == self@.day,
            self@.valid(),
    {
        proof {
            use_type_invariant(self);
        }
        self.day
    }

    pub fn hour(&self) -> (h: u32)
        ensures
            h == self@.hour,
            self@.valid(),
    {
        proof {
            use_type_invariant(self);
        }
        self.hour
    }

    pub fn minute(&self) -> (m: u32)
        ensures
            m == self@.minute,
            self@.valid(),
    {
        proof {
            use_type_invariant(self);
        }
        self.minute
    }

    pub fn second(&self) -> (s: u32)
        ensures
            s == self@.second,
            self@.valid(),
    {
        proof {
            use_type_invariant(self);
        }
        self.second
    }
}

/// What a clock reports, before it is known to name an instant.
#[derive(Clone, Copy, Debug)]
pub struct Fields {
    pub year: i32,
    pub month: u32,
    pub day: u32,
    pub hour: u32,
    pub minute: u32,
    pub second: u32,
}

/// Calls `serenity::model::Timestamp::now`, takes the instant into the time
/// zone of Paris with chrono's `DateTime::with_timezone` and back into a
/// `Timestamp` with `Timestamp::from`, and reads the fields of the result
/// with chrono's `Datelike` and `Timelike`. Nothing is claimed of what is
/// read: it depends on when the call is made. A platform clock that stands
/// before 1970 makes chrono panic.
#[verifier::external_body]
fn read_clock() -> Fields {
    let now = Timestamp::from(Timestamp::now().with_timezone(&chrono_tz::Europe::Paris));
    Fields {
        year: now.year(),
        month: now.month(),
        day: now.day(),
        hour: now.hour(),
        minute: now.minute(),
        second: now.second(),
    }
}

/// Reads the clock. `None` if what it shows is no valid reading, as when
/// the platform clock stands beyond year 9999.
pub fn local_timestamp_now() -> (now: Option<LocalInstant>)
    ensures
        now matches Some(reading) ==> reading@.valid(),
{
    let shown = read_clock();
    let now = LocalInstant::new(
        shown.year,
        shown.month,
        shown.day,
        shown.hour,
        shown.minute,
        shown.second,
    );
    now
}

} // verus!
