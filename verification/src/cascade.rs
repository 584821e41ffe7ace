//! The cascade: five stages, each polling the clock at its own rate until
//! one field of the reading equals what is wanted.

use crate::clock::{LocalInstant, Reading, UTC_OFFSET};
use vstd::prelude::*;

verus! {

/// The monotonic clock counts nanoseconds.
pub const NANOS_PER_SECOND: u64 = 1_000_000_000;

pub const NANOS_PER_MINUTE: u64 = 60_000_000_000;

pub const NANOS_PER_HOUR: u64 = 3_600_000_000_000;

pub const NANOS_PER_DAY: u64 = 86_400_000_000_000;

/// The stages of the cascade, in the order in which they run.
#[derive(Clone, Copy, Debug, PartialEq, Eq, Structural)]
pub enum Stage {
    Calibration,
    Minute,
    Hour,
    Day,
    Year,
}

/// Why an alignment ended without success: the stage that was cut short,
/// by cancellation or by the deadline.
#[derive(Clone, Copy, Debug, PartialEq, Eq, Structural)]
pub enum AlignFailure {
    CalibrationTimeout,
    MinuteNotReached,
    HourNotReached,
    DayNotReached,
    YearNotReached,
}

impl AlignFailure {
    /// The failure in words.
    pub open spec fn text(self) -> Seq<char> {
        match self {
            AlignFailure::CalibrationTimeout => "Could not calibrate seconds"@,
            AlignFailure::MinuteNotReached => "Could not find minute"@,
            AlignFailure::HourNotReached => "Could not find hour"@,
            AlignFailure::DayNotReached => "Could not find day"@,
            AlignFailure::YearNotReached => "Could not find year"@,
        }
    }

    /// The failure in words, for the caller's log.
    pub fn message(&self) -> (m: &'static str)
        ensures
            m@ == self.text(),
    {
        match self {
            AlignFailure::CalibrationTimeout => "Could not calibrate seconds",
            AlignFailure::MinuteNotReached => "Could not find minute",
            AlignFailure::HourNotReached => "Could not find hour",
            AlignFailure::DayNotReached => "Could not find day",
            AlignFailure::YearNotReached => "Could not find year",
        }
    }
}

impl Stage {
    /// Position in the cascade, from 0.
    pub open spec fn rank(self) -> nat {
        match self {
            Stage::Calibration => 0,
            Stage::Minute => 1,
            Stage::Hour => 2,
            Stage::Day => 3,
            Stage::Year => 4,
        }
    }

    pub open spec fn spec_period(self) -> u64 {
        match self {
            Stage::Calibration => NANOS_PER_SECOND,
            Stage::Minute => NANOS_PER_MINUTE,
            Stage::Hour => NANOS_PER_HOUR,
            Stage::Day => NANOS_PER_DAY,
            Stage::Year => NANOS_PER_DAY,
        }
    }

    /// Time between two polls of the stage, in nanoseconds.
    #[verifier::when_used_as_spec(spec_period)]
    pub fn period(self) -> (p: u64)
        ensures
            p == self.spec_period(),
    {
        match self {
            Stage::Calibration => NANOS_PER_SECOND,
            Stage::Minute => NANOS_PER_MINUTE,
            Stage::Hour => NANOS_PER_HOUR,
            Stage::Day => NANOS_PER_DAY,
            Stage::Year => NANOS_PER_DAY,
        }
    }

    pub open spec fn spec_next(self) -> Option<Stage> {
        match self {
            Stage::Calibration => Some(Stage::Minute),
            Stage::Minute => Some(Stage::Hour),
            Stage::Hour => Some(Stage::Day),
            Stage::Day => Some(Stage::Year),
            Stage::Year => None,
        }
    }

    /// The stage that follows, if any.
    #[verifier::when_used_as_spec(spec_next)]
    pub fn next(self) -> (n: Option<Stage>)
        ensures
            n == self.spec_next(),
    {
        match self {
            Stage::Calibration => Some(Stage::Minute),
            Stage::Minute => Some(Stage::Hour),
            Stage::Hour => Some(Stage::Day),
            Stage::Day => Some(Stage::Year),
            Stage::Year => None,
        }
    }

    pub open spec fn spec_failure(self) -> AlignFailure {
        match self {
            Stage::Calibration => AlignFailure::CalibrationTimeout,
            Stage::Minute => AlignFailure::MinuteNotReached,
            Stage::Hour => AlignFailure::HourNotReached,
            Stage::Day => AlignFailure::DayNotReached,
            Stage::Year => AlignFailure::YearNotReached,
        }
    }

    /// The failure that the stage reports when it is cut short.
    #[verifier::when_used_as_spec(spec_failure)]
    pub fn failure(self) -> (f: AlignFailure)
        ensures
            f == self.spec_failure(),
    {
        match self {
            Stage::Calibration => AlignFailure::CalibrationTimeout,
            Stage::Minute => AlignFailure::MinuteNotReached,
            Stage::Hour => AlignFailure::HourNotReached,
            Stage::Day => AlignFailure::DayNotReached,
            Stage::Year => AlignFailure::YearNotReached,
        }
    }
}

/// What one poll sees: the cancellation flag, the monotonic clock in
/// nanoseconds, and the wall clock.
#[derive(Clone, Copy, Debug)]
pub struct Observation {
    pub running: bool,
    pub now: u64,
    pub local: LocalInstant,
}

/// Whether the reading shows what the stage waits for. Calibration waits for
/// second 0 and ignores `wanted`; the hour stage compares after adding the
/// fixed offset; the others compare their field as it is.
pub open spec fn matched(stage: Stage, wanted: int, reading: Reading) -> bool {
    match stage {
        Stage::Calibration => reading.second == 0,
        Stage::Minute => reading.minute == wanted,
        Stage::Hour => reading.hour + UTC_OFFSET == wanted,
        Stage::Day => reading.day == wanted,
        Stage::Year => reading.year == wanted,
    }
}

/// Whether a poll must give up: the task was told to stop, or the deadline
/// lies behind.
pub open spec fn halted(time_limit: Option<u64>, o: Observation) -> bool {
    !o.running || (time_limit matches Some(limit) && o.now > limit)
}

/// What one poll decides.
#[derive(Clone, Copy, Debug, PartialEq, Eq, Structural)]
pub enum Verdict {
    /// The field is there: the stage is over.
    Reached,
    /// Cancelled or timed out: the alignment is over.
    Stopped,
    /// Neither: wait for the next tick and poll again.
    Wait,
}

/// Giving up is tested before the field is compared.
pub open spec fn verdict(stage: Stage, wanted: int, time_limit: Option<u64>, o: Observation) -> Verdict {
    if halted(time_limit, o) {
        Verdict::Stopped
    } else if matched(stage, wanted, o.local@) {
        Verdict::Reached
    } else {
        Verdict::Wait
    }
}

/// Decides one poll of `stage`.
pub fn poll(stage: Stage, wanted: i64, time_limit: &Option<u64>, o: &Observation) -> (v: Verdict)
    ensures
        v == verdict(stage, wanted as int, *time_limit, *o),
{
    if !o.running {
        return Verdict::Stopped;
    }
    if let Some(limit) = time_limit {
        if o.now > *limit {
            return Verdict::Stopped;
        }
    }
    let shown: i64 = match stage {
        Stage::Calibration => {
            if o.local.second() == 0 {
                return Verdict::Reached;
            }
            return Verdict::Wait;
        },
        Stage::Minute => o.local.minute() as i64,
        Stage::Hour => (o.local.hour() + UTC_OFFSET) as i64,
        Stage::Day => o.local.day() as i64,
        Stage::Year => o.local.year() as i64,
    };
    if shown == wanted {
        Verdict::Reached
    } else {
        Verdict::Wait
    }
}

/// How a stage ended on a sequence of polls: at which poll it found its
/// field, at which it gave up, or that the polls ran out first.
#[derive(Clone, Copy, Debug, PartialEq, Eq, Structural)]
pub enum StageEnd {
    Reached { at: usize },
    Stopped { at: usize },
    Pending,
}

/// Every poll from `from` up to `to`, `to` left out, says `Wait`.
pub open spec fn all_wait(
    stage: Stage,
    wanted: int,
    time_limit: Option<u64>,
    polls: Seq<Observation>,
    from: int,
    to: int,
) -> bool {
    forall|j: int|
        from <= j < to ==> #[trigger] verdict(stage, wanted, time_limit, polls[j]) == Verdict::Wait
}

/// `end` is how `stage` ends on `polls` from `from` on: it names the first
/// poll that does not say `Wait`, with what that poll says.
pub open spec fn ends_as(
    stage: Stage,
    wanted: int,
    time_limit: Option<u64>,
    polls: Seq<Observation>,
    from: int,
    end: StageEnd,
) -> bool {
    match end {
        StageEnd::Reached { at } => {
            &&& from <= at < polls.len()
            &&& all_wait(stage, wanted, time_limit, polls, from, at as int)
            &&& verdict(stage, wanted, time_limit, polls[at as int]) == Verdict::Reached
        },
        StageEnd::Stopped { at } => {
            &&& from <= at < polls.len()
            &&& all_wait(stage, wanted, time_limit, polls, from, at as int)
            &&& verdict(stage, wanted, time_limit, polls[at as int]) == Verdict::Stopped
        },
        StageEnd::Pending => all_wait(stage, wanted, time_limit, polls, from, polls.len() as int),
    }
}

/// How `stage` ends on `polls` when its first poll is `polls[from]`.
pub open spec fn stage_end(
    stage: Stage,
    wanted: int,
    time_limit: Option<u64>,
    polls: Seq<Observation>,
    from: int,
) -> StageEnd
    decreases polls.len() - from,
{
    if from < 0 || from >= polls.len() {
        StageEnd::Pending
    } else {
        match verdict(stage, wanted, time_limit, polls[from]) {
            Verdict::Reached => StageEnd::Reached { at: from as usize },
            Verdict::Stopped => StageEnd::Stopped { at: from as usize },
            Verdict::Wait => stage_end(stage, wanted, time_limit, polls, from + 1),
        }
    }
}

/// `stage_end` names the first poll that does not say `Wait`.
pub proof fn lemma_stage_end_is_first(
    stage: Stage,
    wanted: int,
    time_limit: Option<u64>,
    polls: Seq<Observation>,
    from: int,
)
    requires
        0 <= from,
        polls.len() <= usize::MAX,
    ensures
        ends_as(stage, wanted, time_limit, polls, from, stage_end(stage, wanted, time_limit, polls, from)),
    decreases polls.len() - from,
{
    if from < polls.len() && verdict(stage, wanted, time_limit, polls[from]) == Verdict::Wait {
        lemma_stage_end_is_first(stage, wanted, time_limit, polls, from + 1);
    }
}

/// Only one end fits: two that both name the first decisive poll are equal.
pub proof fn lemma_stage_end_unique(
    stage: Stage,
    wanted: int,
    time_limit: Option<u64>,
    polls: Seq<Observation>,
    from: int,
    a: StageEnd,
    b: StageEnd,
)
    requires
        ends_as(stage, wanted, time_limit, polls, from, a),
        ends_as(stage, wanted, time_limit, polls, from, b),
    ensures
        a == b,
{
}

/// Runs one stage over the polls from `polls[from]` on: skips those that say
/// `Wait` and ends at the first that does not.
pub fn wait_until(
    stage: Stage,
    wanted: i64,
    polls: &Vec<Observation>,
    from: usize,
    time_limit: &Option<u64>,
) -> (end: StageEnd)
    ensures
        end == stage_end(stage, wanted as int, *time_limit, polls@, from as int),
        ends_as(stage, wanted as int, *time_limit, polls@, from as int, end),
{
    let mut i: usize = from;
    while i < polls.len()
        invariant
            from <= i,
            stage_end(stage, wanted as int, *time_limit, polls@, from as int) == stage_end(
                stage,
                wanted as int,
                *time_limit,
                polls@,
                i as int,
            ),
        decreases polls.len() - i,
    {
        match poll(stage, wanted, time_limit, &polls[i]) {
            Verdict::Reached => {
                proof {
                    lemma_stage_end_is_first(stage, wanted as int, *time_limit, polls@, from as int);
                }
                return StageEnd::Reached { at: i };
            },
            Verdict::Stopped => {
                proof {
                    lemma_stage_end_is_first(stage, wanted as int, *time_limit, polls@, from as int);
                }
                return StageEnd::Stopped { at: i };
            },
            Verdict::Wait => {},
        }
        i += 1;
    }
    proof {
        lemma_stage_end_is_first(stage, wanted as int, *time_limit, polls@, from as int);
    }
    StageEnd::Pending
}

/// Stage 1: polls until the reading's second is 0.
pub fn calibrate_seconds(polls: &Vec<Observation>, from: usize, time_limit: &Option<u64>) -> (end:
    StageEnd)
    ensures
        end == stage_end(Stage::Calibration, 0, *time_limit, polls@, from as int),
        ends_as(Stage::Calibration, 0, *time_limit, polls@, from as int, end),
{
    wait_until(Stage::Calibration, 0, polls, from, time_limit)
}

/// Stage 2: polls until the reading's minute is `minute`.
pub fn wait_until_minute_reached(
    minute: u32,
    polls: &Vec<Observation>,
    from: usize,
    time_limit: &Option<u64>,
) -> (end: StageEnd)
    ensures
        end == stage_end(Stage::Minute, minute as int, *time_limit, polls@, from as int),
        ends_as(Stage::Minute, minute as int, *time_limit, polls@, from as int, end),
{
    wait_until(Stage::Minute, minute as i64, polls, from, time_limit)
}

/// Stage 3: polls until the reading's hour plus the fixed offset is `hour`.
pub fn wait_until_hour_reached(
    hour: u32,
    polls: &Vec<Observation>,
    from: usize,
    time_limit: &Option<u64>,
) -> (end: StageEnd)
    ensures
        end == stage_end(Stage::Hour, hour as int, *time_limit, polls@, from as int),
        ends_as(Stage::Hour, hour as int, *time_limit, polls@, from as int, end),
{
    wait_until(Stage::Hour, hour as i64, polls, from, time_limit)
}

/// Stage 4: polls until the reading's day of the month is `day`.
pub fn wait_until_day_reached(
    day: u32,
    polls: &Vec<Observation>,
    from: usize,
    time_limit: &Option<u64>,
) -> (end: StageEnd)
    ensures
        end == stage_end(Stage::Day, day as int, *time_limit, polls@, from as int),
        ends_as(Stage::Day, day as int, *time_limit, polls@, from as int, end),
{
    wait_until(Stage::Day, day as i64, polls, from, time_limit)
}

/// Stage 5: polls until the reading's year is `year`.
pub fn wait_until_year_reached(
    year: i32,
    polls: &Vec<Observation>,
    from: usize,
    time_limit: &Option<u64>,
) -> (end: StageEnd)
    ensures
        end == stage_end(Stage::Year, year as int, *time_limit, polls@, from as int),
        ends_as(Stage::Year, year as int, *time_limit, polls@, from as int, end),
{
    wait_until(Stage::Year, year as i64, polls, from, time_limit)
}

} // verus!
