//! An ideal clock: one that shows every second of the calendar in turn,
//! and what a cascade that is fed by it comes to.

use crate::align::{alignment, cascade};
use crate::aligner::{initial, wake, AlignerState, Phase};
use crate::cascade::{matched, verdict, Observation, Stage, Verdict, NANOS_PER_SECOND};
use crate::clock::{days_in_month, following_day, is_calendar_date, Date, Reading, UTC_OFFSET};
use crate::target::Moment;
use crate::ticks::Ticks;
use vstd::prelude::*;

verus! {

/// The day `n` days after `date`.
pub open spec fn days_later(date: Date, n: nat) -> Date
    decreases n,
{
    if n == 0 {
        date
    } else {
        let before = days_later(date, (n - 1) as nat);
        following_day(before.year, before.month, before.day)
    }
}

/// Seconds between midnight and the reading.
pub open spec fn second_of_day(r: Reading) -> int {
    r.hour * 3_600 + r.minute * 60 + r.second
}

/// What an ideal clock shows `secs` seconds after it showed `start`: every
/// minute has 60 seconds, every hour 60 minutes, every day 24 hours, and
/// the days follow each other as in the calendar.
pub open spec fn shown_after(start: Reading, secs: int) -> Reading {
    let total = second_of_day(start) + secs;
    let date = days_later(
        Date { year: start.year, month: start.month, day: start.day },
        (total / 86_400) as nat,
    );
    Reading {
        year: date.year,
        month: date.month,
        day: date.day,
        hour: (total % 86_400) / 3_600,
        minute: (total % 3_600) / 60,
        second: total % 60,
    }
}

/// Seconds between two polls of a stage.
pub open spec fn period_secs(stage: Stage) -> int {
    match stage {
        Stage::Calibration => 1,
        Stage::Minute => 60,
        Stage::Hour => 3_600,
        Stage::Day => 86_400,
        Stage::Year => 86_400,
    }
}

/// Days add up.
pub proof fn lemma_days_later_add(date: Date, a: nat, b: nat)
    ensures
        days_later(days_later(date, a), b) == days_later(date, a + b),
    decreases b,
{
    if b > 0 {
        lemma_days_later_add(date, a, (b - 1) as nat);
    }
}

/// The days that follow a day of the calendar are days of the calendar, in
/// the same year or a later one.
pub proof fn lemma_days_later_is_date(date: Date, n: nat)
    requires
        is_calendar_date(date.year, date.month, date.day),
    ensures
        is_calendar_date(
            days_later(date, n).year,
            days_later(date, n).month,
            days_later(date, n).day,
        ),
        days_later(date, n).year >= date.year,
    decreases n,
{
    if n > 0 {
        lemma_days_later_is_date(date, (n - 1) as nat);
    }
}

/// Within a month the day of the month counts up.
pub proof fn lemma_days_later_in_month(date: Date, n: nat)
    requires
        is_calendar_date(date.year, date.month, date.day),
        date.day + n <= days_in_month(date.year, date.month),
    ensures
        days_later(date, n) == (Date { day: date.day + n, ..date }),
    decreases n,
{
    if n > 0 {
        lemma_days_later_in_month(date, (n - 1) as nat);
    }
}

/// The first day of the month after that of `date`.
pub open spec fn next_month(date: Date) -> Date {
    if date.month < 12 {
        Date { year: date.year, month: date.month + 1, day: 1 }
    } else {
        Date { year: date.year + 1, month: 1, day: 1 }
    }
}

/// From a day to the first of the next month it is as many days as the
/// month has left, and one.
pub proof fn lemma_month_ends(date: Date)
    requires
        is_calendar_date(date.year, date.month, date.day),
    ensures
        days_later(date, (days_in_month(date.year, date.month) - date.day + 1) as nat)
            == next_month(date),
{
    let left = (days_in_month(date.year, date.month) - date.day) as nat;
    lemma_days_later_in_month(date, left);
}

/// Every day of the month comes within three months: in this month if it
/// is still ahead, else in the next, or in the one after if the next is
/// too short for it.
pub proof fn lemma_day_of_month_comes(date: Date, day: int) -> (k: nat)
    requires
        is_calendar_date(date.year, date.month, date.day),
        1 <= day <= 31,
    ensures
        k <= 91,
        days_later(date, k).day == day,
{
    let length = days_in_month(date.year, date.month);
    if date.day <= day <= length {
        let k = (day - date.day) as nat;
        lemma_days_later_in_month(date, k);
        k
    } else {
        let k1 = (length - date.day + 1) as nat;
        lemma_month_ends(date);
        let first = next_month(date);
        if day <= days_in_month(first.year, first.month) {
            let k2 = (day - 1) as nat;
            lemma_days_later_in_month(first, k2);
            lemma_days_later_add(date, k1, k2);
            k1 + k2
        } else {
            let k2 = days_in_month(first.year, first.month) as nat;
            lemma_month_ends(first);
            let second = next_month(first);
            let k3 = (day - 1) as nat;
            lemma_days_later_in_month(second, k3);
            lemma_days_later_add(date, k1, k2);
            lemma_days_later_add(date, k1 + k2, k3);
            k1 + k2 + k3
        }
    }
}

/// New Year's Day comes within the months that the year has left.
pub proof fn lemma_new_year_comes(date: Date) -> (k: nat)
    requires
        is_calendar_date(date.year, date.month, date.day),
    ensures
        1 <= k <= 31 * (13 - date.month),
        days_later(date, k) == (Date { year: date.year + 1, month: 1, day: 1 }),
    decreases 12 - date.month,
{
    let k1 = (days_in_month(date.year, date.month) - date.day + 1) as nat;
    lemma_month_ends(date);
    if date.month == 12 {
        k1
    } else {
        let k2 = lemma_new_year_comes(next_month(date));
        lemma_days_later_add(date, k1, k2);
        k1 + k2
    }
}

/// Every year that is not past comes.
pub proof fn lemma_year_comes(date: Date, year: int) -> (k: nat)
    requires
        is_calendar_date(date.year, date.month, date.day),
        date.year <= year,
    ensures
        k <= 372 * (year - date.year),
        days_later(date, k).year == year,
    decreases year - date.year,
{
    if date.year == year {
        0
    } else {
        let k1 = lemma_new_year_comes(date);
        let k2 = lemma_year_comes(Date { year: date.year + 1, month: 1, day: 1 }, year);
        lemma_days_later_add(date, k1, k2);
        k1 + k2
    }
}

/// The year does not run backwards.
pub proof fn lemma_year_grows(date: Date, a: nat, b: nat)
    requires
        is_calendar_date(date.year, date.month, date.day),
        a <= b,
    ensures
        days_later(date, a).year <= days_later(date, b).year,
{
    lemma_days_later_is_date(date, a);
    lemma_days_later_is_date(days_later(date, a), (b - a) as nat);
    lemma_days_later_add(date, a, (b - a) as nat);
}

/// 92 days after New Year's Day the year is still the same.
pub proof fn lemma_year_lasts(year: int)
    ensures
        days_later(Date { year, month: 1, day: 1 }, 92).year == year,
{
    let january = Date { year, month: 1, day: 1 };
    let february = Date { year, month: 2, day: 1 };
    let march = Date { year, month: 3, day: 1 };
    let april = Date { year, month: 4, day: 1 };
    let length = days_in_month(year, 2) as nat;
    lemma_month_ends(january);
    lemma_month_ends(february);
    lemma_month_ends(march);
    lemma_days_later_add(january, 31, length);
    lemma_days_later_add(january, 31 + length, 31);
    let left = (30 - length) as nat;
    lemma_days_later_in_month(april, left);
    lemma_days_later_add(january, 62 + length, left);
}

/// From a day before October, the first of October comes.
pub proof fn lemma_october_comes(date: Date) -> (k: nat)
    requires
        is_calendar_date(date.year, date.month, date.day),
        date.month <= 9,
    ensures
        days_later(date, k) == (Date { year: date.year, month: 10, day: 1 }),
    decreases 9 - date.month,
{
    let k1 = (days_in_month(date.year, date.month) - date.day + 1) as nat;
    lemma_month_ends(date);
    if date.month == 9 {
        k1
    } else {
        let k2 = lemma_october_comes(next_month(date));
        lemma_days_later_add(date, k1, k2);
        k1 + k2
    }
}

/// Within 92 days a year that lies ahead is not passed, and neither is
/// the year of a day before October.
pub proof fn lemma_year_is_not_passed(date: Date, year: int, n: nat)
    requires
        is_calendar_date(date.year, date.month, date.day),
        date.year < year || (date.year == year && date.month <= 9),
        n <= 92,
    ensures
        days_later(date, n).year <= year,
{
    if date.year < year {
        let k = lemma_new_year_comes(date);
        if n <= k {
            lemma_year_grows(date, n, k);
        } else {
            let first = Date { year: date.year + 1, month: 1, day: 1 };
            lemma_days_later_add(date, k, (n - k) as nat);
            lemma_year_grows(first, (n - k) as nat, 92);
            lemma_year_lasts(date.year + 1);
        }
    } else {
        let k = lemma_october_comes(date);
        let october = Date { year, month: 10, day: 1 };
        let november = Date { year, month: 11, day: 1 };
        let december = Date { year, month: 12, day: 1 };
        lemma_month_ends(october);
        lemma_month_ends(november);
        lemma_days_later_in_month(december, 30);
        lemma_days_later_add(date, k, 31);
        lemma_days_later_add(date, k + 31, 30);
        lemma_days_later_add(date, k + 61, 30);
        lemma_year_grows(date, n, k + 91);
    }
}

/// The most periods that a stage waits on an ideal clock, `years` being
/// how many years the target's year lies ahead.
pub open spec fn longest_wait(stage: Stage, years: int) -> int {
    match stage {
        Stage::Calibration => 59,
        Stage::Minute => 59,
        Stage::Hour => 23,
        Stage::Day => 91,
        Stage::Year => 372 * years,
    }
}

/// Second 0 comes within a minute.
pub proof fn lemma_second_zero_comes(start: Reading, secs: int) -> (k: nat)
    requires
        start.valid(),
        0 <= secs,
    ensures
        k <= 59,
        shown_after(start, secs + k).second == 0,
{
    let total = second_of_day(start) + secs;
    ((60 - total % 60) % 60) as nat
}

/// Polled once a minute, every minute of the hour comes within an hour.
pub proof fn lemma_minute_comes(start: Reading, secs: int, minute: int) -> (k: nat)
    requires
        start.valid(),
        0 <= secs,
        0 <= minute <= 59,
    ensures
        k <= 59,
        shown_after(start, secs + k * 60).minute == minute,
{
    let total = second_of_day(start) + secs;
    let shown = (total % 3_600) / 60;
    let k = if minute >= shown {
        minute - shown
    } else {
        minute - shown + 60
    };
    assert(((total + k * 60) % 3_600) / 60 == minute);
    k as nat
}

/// Polled once an hour, every hour of the day comes within a day.
pub proof fn lemma_hour_comes(start: Reading, secs: int, hour: int) -> (k: nat)
    requires
        start.valid(),
        0 <= secs,
        0 <= hour <= 23,
    ensures
        k <= 23,
        shown_after(start, secs + k * 3_600).hour == hour,
{
    let total = second_of_day(start) + secs;
    let shown = (total % 86_400) / 3_600;
    let k = if hour >= shown {
        hour - shown
    } else {
        hour - shown + 24
    };
    assert(((total + k * 3_600) % 86_400) / 3_600 == hour);
    k as nat
}

/// Polled once a day, every day of the month comes within three months.
pub proof fn lemma_day_comes(start: Reading, secs: int, day: int) -> (k: nat)
    requires
        start.valid(),
        0 <= secs,
        1 <= day <= 31,
    ensures
        k <= 91,
        shown_after(start, secs + k * 86_400).day == day,
{
    let total = second_of_day(start) + secs;
    let days = (total / 86_400) as nat;
    let first = Date { year: start.year, month: start.month, day: start.day };
    lemma_days_later_is_date(first, days);
    let k = lemma_day_of_month_comes(days_later(first, days), day);
    lemma_days_later_add(first, days, k);
    assert((total + k * 86_400) / 86_400 == days + k);
    k
}

/// Polled once a day, every year that is not past comes.
pub proof fn lemma_year_shows(start: Reading, secs: int, year: int) -> (k: nat)
    requires
        start.valid(),
        0 <= secs,
        shown_after(start, secs).year <= year,
    ensures
        k <= 372 * (year - start.year),
        shown_after(start, secs + k * 86_400).year == year,
{
    let total = second_of_day(start) + secs;
    let days = (total / 86_400) as nat;
    let first = Date { year: start.year, month: start.month, day: start.day };
    lemma_days_later_is_date(first, days);
    let k = lemma_year_comes(days_later(first, days), year);
    lemma_days_later_add(first, days, k);
    assert((total + k * 86_400) / 86_400 == days + k);
    k
}

/// On an ideal clock every stage finds its field, polled at its period
/// from any instant on: after at most `longest_wait` periods. The hour
/// stage needs an hour that is no less than the fixed offset, since it
/// adds the offset to what the clock shows; the year stage needs a year
/// that the clock has not left behind.
pub proof fn lemma_field_comes(stage: Stage, start: Reading, target: Moment, secs: int) -> (k: nat)
    requires
        start.valid(),
        target.valid(),
        0 <= secs,
        stage == Stage::Hour ==> UTC_OFFSET <= target.hour,
        stage == Stage::Year ==> shown_after(start, secs).year <= target.year,
    ensures
        k <= longest_wait(stage, target.year - start.year),
        matched(
            stage,
            target.wanted(stage),
            shown_after(start, secs + k * period_secs(stage)),
        ),
{
    match stage {
        Stage::Calibration => lemma_second_zero_comes(start, secs),
        Stage::Minute => lemma_minute_comes(start, secs, target.minute),
        Stage::Hour => lemma_hour_comes(start, secs, target.hour - UTC_OFFSET),
        Stage::Day => lemma_day_comes(start, secs, target.day),
        Stage::Year => lemma_year_shows(start, secs, target.year),
    }
}

/// The polls find the task running and the clock ideal: a poll at the
/// monotonic instant `now` shows what the clock shows that many whole
/// seconds after it showed `start`.
pub open spec fn ideal(polls: Seq<Observation>, start: Reading) -> bool {
    forall|i: int|
        0 <= i < polls.len() ==> (#[trigger] polls[i]).running && polls[i].local@ == shown_after(
            start,
            polls[i].now as int / NANOS_PER_SECOND as int,
        )
}

/// From `polls[from]` on, each poll is taken when the one before lets the
/// caller wake.
pub open spec fn paced(s: AlignerState, polls: Seq<Observation>, from: int) -> bool
    decreases polls.len() - from,
{
    if from < 0 || from + 1 >= polls.len() {
        true
    } else {
        polls[from + 1].now == wake(s, polls[from]) && paced(s.next(polls[from]), polls, from + 1)
    }
}

/// Polls that suffice from the first poll of `stage` to the alignment.
pub open spec fn polls_needed(stage: Stage, years: int) -> int {
    match stage {
        Stage::Calibration => 242 + 372 * years,
        Stage::Minute => 181 + 372 * years,
        Stage::Hour => 120 + 372 * years,
        Stage::Day => 95 + 372 * years,
        Stage::Year => 2 + 372 * years,
    }
}

/// The latest that `stage` starts, in seconds after the first poll.
pub open spec fn latest_start(stage: Stage) -> int {
    match stage {
        Stage::Calibration => 0,
        Stage::Minute => 59,
        Stage::Hour => 3_599,
        Stage::Day => 86_399,
        Stage::Year => 7_948_799,
    }
}

/// The latest that `stage` ends.
pub open spec fn latest_end(stage: Stage, years: int) -> int {
    latest_start(stage) + longest_wait(stage, years) * period_secs(stage)
}

/// What the lemmas below share: a machine that waits without a deadline
/// for a target that an ideal clock can show, and polls of that clock which
/// are paced by the machine.
pub open spec fn on_ideal_clock(
    s: AlignerState,
    polls: Seq<Observation>,
    i: int,
    start: Reading,
) -> bool {
    &&& s.phase == Phase::Waiting
    &&& s.time_limit is None
    &&& s.target.valid()
    &&& UTC_OFFSET <= s.target.hour
    &&& start.valid()
    &&& s.target.year - start.year <= 400
    &&& forall|t: int|
        0 <= t <= latest_start(Stage::Year) ==> (#[trigger] shown_after(start, t)).year
            <= s.target.year
    &&& 0 <= i < polls.len() <= usize::MAX
    &&& ideal(polls, start)
    &&& paced(s, polls, i)
}

/// The poll `polls[i]`, taken `at` seconds after the first, shows what the
/// stage waits for: the stage ends there, and the stages that follow end
/// in their turn.
proof fn lemma_stage_ends(
    s: AlignerState,
    polls: Seq<Observation>,
    i: int,
    start: Reading,
    at: int,
)
    requires
        on_ideal_clock(s, polls, i, start),
        polls[i].now == NANOS_PER_SECOND * at,
        0 <= at <= latest_end(s.stage, s.target.year - start.year),
        matched(s.stage, s.target.wanted(s.stage), shown_after(start, at)),
        s.stage.next() matches Some(following) ==> polls.len() - i >= 1 + polls_needed(
            following,
            s.target.year - start.year,
        ),
    ensures
        cascade(s.stage, s.target, None, polls, i) is Aligned,
    decreases 5 - s.stage.rank(), 0int, 0int,
{
    let o = polls[i];
    assert(o.running);
    assert(o.now as int / NANOS_PER_SECOND as int == at);
    assert(verdict(s.stage, s.target.wanted(s.stage), None, o) == Verdict::Reached);
    match s.stage.next() {
        Some(following) => {
            assert(s.target.year >= start.year) by {
                assert(shown_after(start, 0).year <= s.target.year);
                lemma_days_later_is_date(
                    Date { year: start.year, month: start.month, day: start.day },
                    (second_of_day(start) / 86_400) as nat,
                );
            }
            lemma_stage_starts(s.next(o), polls, i + 1, start, at);
        },
        None => {},
    }
}

/// The stage has waited before; `polls[i]` is taken `at` seconds after the
/// first poll, on a tick of the stage, and `left` periods later the clock
/// shows what the stage waits for.
proof fn lemma_stage_waits(
    s: AlignerState,
    polls: Seq<Observation>,
    i: int,
    start: Reading,
    at: int,
    left: nat,
)
    requires
        on_ideal_clock(s, polls, i, start),
        polls[i].now == NANOS_PER_SECOND * at,
        s.ticks == Some(
            Ticks {
                period: s.stage.period(),
                next: (NANOS_PER_SECOND * (at + period_secs(s.stage))) as u64,
            },
        ),
        0 <= at,
        at + left * period_secs(s.stage) <= latest_end(s.stage, s.target.year - start.year),
        matched(
            s.stage,
            s.target.wanted(s.stage),
            shown_after(start, at + left * period_secs(s.stage)),
        ),
        polls.len() - i >= left + 1 + match s.stage.next() {
            Some(following) => polls_needed(following, s.target.year - start.year),
            None => 0,
        },
    ensures
        cascade(s.stage, s.target, None, polls, i) is Aligned,
    decreases 5 - s.stage.rank(), 1int, left,
{
    let o = polls[i];
    let years = s.target.year - start.year;
    assert(o.running);
    assert(o.now as int / NANOS_PER_SECOND as int == at);
    assert(shown_after(start, 0).year <= s.target.year);
    lemma_days_later_is_date(
        Date { year: start.year, month: start.month, day: start.day },
        (second_of_day(start) / 86_400) as nat,
    );
    let p = period_secs(s.stage);
    assert(left * p >= 0) by (nonlinear_arith)
        requires
            p >= 1,
    ;
    if matched(s.stage, s.target.wanted(s.stage), o.local@) {
        lemma_stage_ends(s, polls, i, start, at);
    } else {
        assert(left >= 1) by {
            if left == 0 {
                assert(left * p == 0) by (nonlinear_arith)
                    requires
                        left == 0,
                ;
            }
        }
        assert((left - 1) * p + p == left * p) by (nonlinear_arith);
        assert(latest_end(s.stage, years) <= 12_864_268_799) by {
            assert(372 * years * 86_400 <= 12_856_320_000);
        }
        assert(s.stage.period() == NANOS_PER_SECOND * p);
        assert(verdict(s.stage, s.target.wanted(s.stage), None, o) == Verdict::Wait);
        lemma_stage_waits(s.next(o), polls, i + 1, start, at + p, (left - 1) as nat);
    }
}

/// The stage takes its first poll, `polls[i]`, `at` seconds after the
/// first poll of all.
proof fn lemma_stage_starts(
    s: AlignerState,
    polls: Seq<Observation>,
    i: int,
    start: Reading,
    at: int,
)
    requires
        on_ideal_clock(s, polls, i, start),
        s.ticks is None,
        polls[i].now == NANOS_PER_SECOND * at,
        0 <= at <= latest_start(s.stage),
        0 <= s.target.year - start.year,
        polls.len() - i >= polls_needed(s.stage, s.target.year - start.year),
    ensures
        cascade(s.stage, s.target, None, polls, i) is Aligned,
    decreases 5 - s.stage.rank(), 2int, 0int,
{
    let o = polls[i];
    let years = s.target.year - start.year;
    let p = period_secs(s.stage);
    assert(o.running);
    assert(o.now as int / NANOS_PER_SECOND as int == at);
    assert(longest_wait(s.stage, years) * p >= 0) by (nonlinear_arith)
        requires
            longest_wait(s.stage, years) >= 0,
            p >= 1,
    ;
    if matched(s.stage, s.target.wanted(s.stage), o.local@) {
        lemma_stage_ends(s, polls, i, start, at);
    } else {
        assert(shown_after(start, at).year <= s.target.year);
        let k = lemma_field_comes(s.stage, start, s.target, at);
        assert(k * p <= longest_wait(s.stage, years) * p) by (nonlinear_arith)
            requires
                k <= longest_wait(s.stage, years),
                p >= 1,
        ;
        assert(s.stage.period() == NANOS_PER_SECOND * p);
        assert(verdict(s.stage, s.target.wanted(s.stage), None, o) == Verdict::Wait);
        lemma_stage_waits(s.next(o), polls, i + 1, start, at, k);
    }
}

/// Liveness on an ideal clock. A task that keeps running, has no deadline
/// and sleeps as it is told aligns to every target whose hour is no less
/// than the fixed offset and whose year has not gone by when the year stage
/// starts, which it does within 92 days; and it does so within
/// `polls_needed` polls. The year may lie up to 400 years ahead, which the
/// monotonic clock can still count.
pub proof fn lemma_ideal_clock_aligns(target: Moment, start: Reading, polls: Seq<Observation>)
    requires
        target.valid(),
        UTC_OFFSET <= target.hour,
        start.valid(),
        target.year - start.year <= 400,
        forall|t: int|
            0 <= t <= latest_start(Stage::Year) ==> (#[trigger] shown_after(start, t)).year
                <= target.year,
        polls_needed(Stage::Calibration, target.year - start.year) <= polls.len() <= usize::MAX,
        ideal(polls, start),
        polls[0].now == 0,
        paced(initial(target, None), polls, 0),
    ensures
        alignment(target, None, polls) is Aligned,
{
    assert(shown_after(start, 0).year <= target.year);
    lemma_days_later_is_date(
        Date { year: start.year, month: start.month, day: start.day },
        (second_of_day(start) / 86_400) as nat,
    );
    lemma_stage_starts(initial(target, None), polls, 0, start, 0);
}

/// The target's year is in reach of a clock that shows `start`: it lies
/// ahead by 400 years at the most, or it is the year that the clock shows
/// and October has not begun.
pub open spec fn year_in_reach(start: Reading, target: Moment) -> bool {
    ||| start.year < target.year <= start.year + 400
    ||| start.year == target.year && start.month <= 9
}

/// Liveness on an ideal clock, for a target whose year is in reach: the
/// year has then not gone by when the year stage starts.
pub proof fn lemma_ideal_clock_aligns_in_reach(
    target: Moment,
    start: Reading,
    polls: Seq<Observation>,
)
    requires
        target.valid(),
        UTC_OFFSET <= target.hour,
        start.valid(),
        year_in_reach(start, target),
        polls_needed(Stage::Calibration, target.year - start.year) <= polls.len() <= usize::MAX,
        ideal(polls, start),
        polls[0].now == 0,
        paced(initial(target, None), polls, 0),
    ensures
        alignment(target, None, polls) is Aligned,
{
    assert forall|t: int| 0 <= t <= latest_start(Stage::Year) implies (#[trigger] shown_after(
        start,
        t,
    )).year <= target.year by {
        let total = second_of_day(start) + t;
        lemma_year_is_not_passed(
            Date { year: start.year, month: start.month, day: start.day },
            target.year,
            (total / 86_400) as nat,
        );
    }
    lemma_ideal_clock_aligns(target, start, polls);
}

} // verus!
