//! The whole alignment: the five stages in turn, each on fresh polls.

use crate::cascade::{
    calibrate_seconds, stage_end, wait_until_day_reached, wait_until_hour_reached,
    wait_until_minute_reached, wait_until_year_reached, AlignFailure, Observation, Stage, StageEnd,
};
use crate::target::{Moment, TargetMoment};
use crate::ticks::{started, AlignedOk, PeriodicScheduler, TickSource};
use vstd::prelude::*;

verus! {

/// How a cascade ended on a sequence of polls.
#[derive(Clone, Copy, Debug, PartialEq, Eq, Structural)]
pub enum Outcome {
    /// All five stages found their field; the year stage did at poll `at`.
    Aligned { at: usize },
    /// A stage gave up at poll `at`; no later stage ran.
    Failed { failure: AlignFailure, at: usize },
    /// The polls ran out while `stage` was waiting.
    Pending { stage: Stage },
}

/// The cascade from `stage` on, when the first poll of `stage` is
/// `polls[from]`. A stage that finds its field at one poll hands the next
/// poll to the stage that follows: no poll serves two stages.
pub open spec fn cascade(
    stage: Stage,
    target: Moment,
    time_limit: Option<u64>,
    polls: Seq<Observation>,
    from: int,
) -> Outcome
    decreases 5 - stage.rank(),
{
    match stage_end(stage, target.wanted(stage), time_limit, polls, from) {
        StageEnd::Pending => Outcome::Pending { stage },
        StageEnd::Stopped { at } => Outcome::Failed { failure: stage.failure(), at },
        StageEnd::Reached { at } => match stage.next() {
            None => Outcome::Aligned { at },
            Some(following) => cascade(following, target, time_limit, polls, at + 1),
        },
    }
}

/// The whole cascade on `polls`.
pub open spec fn alignment(target: Moment, time_limit: Option<u64>, polls: Seq<Observation>) -> Outcome {
    cascade(Stage::Calibration, target, time_limit, polls, 0)
}

/// Runs the cascade over recorded polls and says where and how it ended.
pub fn cascade_over(target: &TargetMoment, polls: &Vec<Observation>, time_limit: &Option<u64>) -> (o:
    Outcome)
    ensures
        o == alignment(target@, *time_limit, polls@),
{
    proof {
        reveal_with_fuel(cascade, 5);
    }
    assert(polls@.len() == polls.len());
    let at = match calibrate_seconds(polls, 0, time_limit) {
        StageEnd::Reached { at } => at,
        StageEnd::Stopped { at } => {
            return Outcome::Failed { failure: AlignFailure::CalibrationTimeout, at };
        },
        StageEnd::Pending => {
            return Outcome::Pending { stage: Stage::Calibration };
        },
    };
    let at = match wait_until_minute_reached(target.minute(), polls, at + 1, time_limit) {
        StageEnd::Reached { at } => at,
        StageEnd::Stopped { at } => {
            return Outcome::Failed { failure: AlignFailure::MinuteNotReached, at };
        },
        StageEnd::Pending => {
            return Outcome::Pending { stage: Stage::Minute };
        },
    };
    let at = match wait_until_hour_reached(target.hour(), polls, at + 1, time_limit) {
        StageEnd::Reached { at } => at,
        StageEnd::Stopped { at } => {
            return Outcome::Failed { failure: AlignFailure::HourNotReached, at };
        },
        StageEnd::Pending => {
            return Outcome::Pending { stage: Stage::Hour };
        },
    };
    let at = match wait_until_day_reached(target.day(), polls, at + 1, time_limit) {
        StageEnd::Reached { at } => at,
        StageEnd::Stopped { at } => {
            return Outcome::Failed { failure: AlignFailure::DayNotReached, at };
        },
        StageEnd::Pending => {
            return Outcome::Pending { stage: Stage::Day };
        },
    };
    match wait_until_year_reached(target.year(), polls, at + 1, time_limit) {
        StageEnd::Reached { at } => Outcome::Aligned { at },
        StageEnd::Stopped { at } => Outcome::Failed { failure: AlignFailure::YearNotReached, at },
        StageEnd::Pending => Outcome::Pending { stage: Stage::Year },
    }
}

/// Aligns to `target` on recorded polls. `Some(Ok(..))` when all five stages
/// found their field, with the instant of the last poll; `Some(Err(..))` when
/// a stage was cancelled or timed out; `None` when the polls ran out first.
pub fn align_to(target: &TargetMoment, polls: &Vec<Observation>, time_limit: &Option<u64>) -> (r:
    Option<Result<AlignedOk, AlignFailure>>)
    ensures
        match alignment(target@, *time_limit, polls@) {
            Outcome::Aligned { at } => r matches Some(Ok(token)) && token@ == polls@[at as int].now,
            Outcome::Failed { failure, at } => r == Some(Err::<AlignedOk, AlignFailure>(failure)),
            Outcome::Pending { stage } => r is None,
        },
{
    match cascade_over(target, polls, time_limit) {
        Outcome::Aligned { at } => {
            proof {
                assert(polls@.len() == polls.len());
                lemma_outcome_in_range(Stage::Calibration, target@, *time_limit, polls@, 0);
            }
            Some(Ok(AlignedOk::new(polls[at].now)))
        },
        Outcome::Failed { failure, at } => Some(Err(failure)),
        Outcome::Pending { stage } => None,
    }
}

/// Aligns to `timestamp` on recorded polls and, on success, starts the ticks
/// at the instant of alignment.
pub fn sync_at(
    polls: &Vec<Observation>,
    time_limit: &Option<u64>,
    timestamp: &TargetMoment,
    interval: Option<u64>,
) -> (r: Option<Result<TickSource, AlignFailure>>)
    ensures
        match alignment(timestamp@, *time_limit, polls@) {
            Outcome::Aligned { at } => r matches Some(Ok(ticks)) && ticks@ == started(
                polls@[at as int].now,
                interval,
            ),
            Outcome::Failed { failure, at } => r == Some(Err::<TickSource, AlignFailure>(failure)),
            Outcome::Pending { stage } => r is None,
        },
{
    match align_to(timestamp, polls, time_limit) {
        Some(Ok(token)) => Some(Ok(PeriodicScheduler::start(token, interval))),
        Some(Err(failure)) => Some(Err(failure)),
        None => None,
    }
}

/// The poll that a cascade names is one of the polls it was given, at or
/// after the first.
pub proof fn lemma_outcome_in_range(
    stage: Stage,
    target: Moment,
    time_limit: Option<u64>,
    polls: Seq<Observation>,
    from: int,
)
    requires
        0 <= from,
        polls.len() <= usize::MAX,
    ensures
        match cascade(stage, target, time_limit, polls, from) {
            Outcome::Aligned { at } => from <= at < polls.len(),
            Outcome::Failed { failure, at } => from <= at < polls.len(),
            Outcome::Pending { stage } => true,
        },
    decreases 5 - stage.rank(),
{
    crate::cascade::lemma_stage_end_is_first(stage, target.wanted(stage), time_limit, polls, from);
    match stage_end(stage, target.wanted(stage), time_limit, polls, from) {
        StageEnd::Reached { at } => match stage.next() {
            Some(following) => {
                lemma_outcome_in_range(following, target, time_limit, polls, at + 1);
            },
            None => {},
        },
        _ => {},
    }
}

} // verus!
