//! The two daily announcements: when each is due, how often it recurs, and
//! what the morning one counts.

use crate::cascade::NANOS_PER_DAY;
use crate::clock::{
    following_day, is_calendar_date, Date, LocalInstant, Reading, MAX_YEAR, MIN_YEAR, UTC_OFFSET,
};
use crate::log::{decimal, push_decimal};
use crate::target::{Moment, TargetMoment};
use chrono::Datelike;
use rand::Rng;
use vstd::prelude::*;
use vstd::string::StringExecFns;

verus! {

/// Hour of the morning announcement.
pub const MORNING_HOUR: u32 = 7;

/// Hour of the evening announcement.
pub const EVENING_HOUR: u32 = 22;

/// The instant from which the morning announcement counts its days:
/// 10 April 2016, 10:00 UTC, in seconds of the Unix epoch.
pub const ACADEMY_OPENING: i64 = 1_460_282_400;

/// The last second of year 9999, in seconds of the Unix epoch.
pub const LAST_SECOND: i64 = 253_402_300_799;

/// A day of the calendar in a year of four digits.
pub open spec fn in_calendar(year: int, month: int, day: int) -> bool {
    MIN_YEAR <= year <= MAX_YEAR && is_calendar_date(year, month, day)
}

/// An instant between the start of the Unix epoch and the end of year 9999.
pub open spec fn in_epoch(secs: int) -> bool {
    0 <= secs <= LAST_SECOND
}

/// A day as chrono names it.
#[derive(Clone, Copy, Debug)]
pub struct Day {
    pub year: i32,
    pub month: u32,
    pub day: u32,
}

impl View for Day {
    type V = Date;

    open spec fn view(&self) -> Date {
        Date { year: self.year as int, month: self.month as int, day: self.day as int }
    }
}

/// The moment at which an announcement of `hour` o'clock is next due when
/// the clock shows `now`: today at `hour`:00 if the hour of the reading,
/// with the fixed offset added, lies before `hour`; tomorrow if not.
pub open spec fn announcement_moment(now: Reading, hour: int) -> Moment {
    if now.hour + UTC_OFFSET < hour {
        Moment { hour, minute: 0, day: now.day, year: now.year }
    } else {
        let next = following_day(now.year, now.month, now.day);
        Moment { hour, minute: 0, day: next.day, year: next.year }
    }
}

/// Whole days between two instants given in seconds, whichever comes first.
pub open spec fn whole_days_between(from_secs: int, to_secs: int) -> int {
    if from_secs <= to_secs {
        (to_secs - from_secs) / 86_400
    } else {
        (from_secs - to_secs) / 86_400
    }
}

/// Calls `chrono::NaiveDate::checked_add_signed` with `chrono::Duration::days(1)`
/// on the date that `chrono::NaiveDate::from_ymd_opt` makes of the arguments.
/// Trusted: for a day of the calendar in a year of four digits, chrono
/// returns the day that follows it in the proleptic Gregorian calendar.
#[verifier::external_body]
fn day_after(year: i32, month: u32, day: u32) -> (next: Option<Day>)
    ensures
        in_calendar(year as int, month as int, day as int) ==> next is Some && next->0@
            == following_day(year as int, month as int, day as int),
{
    let today = chrono::NaiveDate::from_ymd_opt(year, month, day)?;
    let next = today.checked_add_signed(chrono::Duration::days(1))?;
    Some(Day { year: next.year(), month: next.month(), day: next.day() })
}

/// Calls `date_component::date_component::calculate` on the two instants of
/// UTC that `chrono::DateTime::from_timestamp` makes of the arguments, and
/// returns its `interval_days`. Trusted: for instants between 1970 and the
/// end of year 9999, that field is the number of whole days between them.
#[verifier::external_body]
fn interval_days(from_secs: i64, to_secs: i64) -> (days: Option<i64>)
    ensures
        in_epoch(from_secs as int) && in_epoch(to_secs as int) ==> days == Some(
            whole_days_between(from_secs as int, to_secs as int) as i64,
        ),
{
    let from = chrono::DateTime::from_timestamp(from_secs, 0)?;
    let to = chrono::DateTime::from_timestamp(to_secs, 0)?;
    Some(date_component::date_component::calculate(&from, &to).interval_days as i64)
}

/// Calls `rand::Rng::gen_range` on `rand::thread_rng()` with the range from
/// 0 to `bound`, `bound` left out. Trusted: the number drawn lies in the
/// range. Which one it is depends on chance.
#[verifier::external_body]
fn random_below(bound: usize) -> (drawn: usize)
    requires
        bound > 0,
    ensures
        drawn < bound,
{
    rand::thread_rng().gen_range(0..bound)
}

/// When an announcement of `hour` o'clock is next due. `None` if `hour` is
/// no hour of the day.
pub fn announcement_time(now: &LocalInstant, hour: u32) -> (r: Option<TargetMoment>)
    ensures
        hour <= 23 ==> (r matches Some(target) && target@ == announcement_moment(
            now@,
            hour as int,
        )),
        hour > 23 ==> r is None,
{
    if hour > 23 {
        return None;
    }
    if now.hour() + UTC_OFFSET < hour {
        TargetMoment::new(hour, 0, now.day(), now.year())
    } else {
        match day_after(now.year(), now.month(), now.day()) {
            Some(next) => TargetMoment::new(hour, 0, next.day, next.year),
            None => None,
        }
    }
}

/// What a scheduled task needs to start: the moment to align to, the
/// deadline of the alignment if it has one, and the period of the ticks
/// that follow it.
#[derive(Clone, Copy, Debug)]
pub struct Schedule {
    pub target: TargetMoment,
    pub time_limit: Option<u64>,
    pub period: Option<u64>,
}

/// Plans the morning and the evening announcement, in this order, for a
/// task that starts when the clock shows `now`: each is next due at its
/// hour, has no deadline and recurs every 24 hours.
pub fn setup_monokuma_announcement(now: &LocalInstant) -> (plans: (Schedule, Schedule))
    ensures
        plans.0.target@ == announcement_moment(now@, MORNING_HOUR as int),
        plans.1.target@ == announcement_moment(now@, EVENING_HOUR as int),
        plans.0.time_limit is None && plans.1.time_limit is None,
        plans.0.period == Some(NANOS_PER_DAY) && plans.1.period == Some(NANOS_PER_DAY),
{
    let morning = announcement_time(now, MORNING_HOUR);
    let evening = announcement_time(now, EVENING_HOUR);
    (
        Schedule { target: morning.unwrap(), time_limit: None, period: Some(NANOS_PER_DAY) },
        Schedule { target: evening.unwrap(), time_limit: None, period: Some(NANOS_PER_DAY) },
    )
}

/// The number that the morning announcement gives the day: whole days since
/// the opening, at the instant `now_secs` of the Unix epoch. `None` outside
/// the years 1970 to 9999.
pub fn academy_day(now_secs: i64) -> (day: Option<u64>)
    ensures
        in_epoch(now_secs as int) ==> day == Some(
            whole_days_between(ACADEMY_OPENING as int, now_secs as int) as u64,
        ),
        !in_epoch(now_secs as int) ==> day is None,
{
    if now_secs < 0 || now_secs > LAST_SECOND {
        return None;
    }
    match interval_days(ACADEMY_OPENING, now_secs) {
        Some(days) => Some(days as u64),
        None => None,
    }
}

/// The last line of the morning announcement on day `day`.
pub open spec fn footer_of(day: nat) -> Seq<char> {
    "Ainsi débute le jour "@ + decimal(day) + " à l'Académie du Pic de l'Espoir"@
}

/// Writes the last line of the morning announcement.
pub fn morning_footer(day: u64) -> (footer: String)
    ensures
        footer@ == footer_of(day as nat),
{
    let mut footer = String::from_str("Ainsi débute le jour ");
    push_decimal(&mut footer, day);
    footer.append(" à l'Académie du Pic de l'Espoir");
    footer
}

/// Picks one of the strings at random.
pub fn get_random_in_str_array<'a>(arr: Box<[&'a str]>) -> (picked: &'a str)
    requires
        arr@.len() > 0,
    ensures
        exists|i: int| 0 <= i < arr@.len() && picked == arr@[i],
{
    let i = random_below(arr.len());
    arr[i]
}

} // verus!
