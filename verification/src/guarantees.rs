//! What holds of every alignment, whatever the clock shows.

use crate::align::{alignment, cascade, lemma_outcome_in_range, Outcome};
use crate::cascade::{
    halted, lemma_stage_end_is_first, matched, stage_end, verdict, Observation, Stage, StageEnd,
    Verdict,
};
use crate::target::Moment;
use vstd::prelude::*;

verus! {

/// For each stage, a poll at which the clock shows its field.
pub struct Sightings {
    pub second: int,
    pub minute: int,
    pub hour: int,
    pub day: int,
    pub year: int,
}

impl Sightings {
    /// The poll that shows the field of `stage`.
    pub open spec fn of(self, stage: Stage) -> int {
        match stage {
            Stage::Calibration => self.second,
            Stage::Minute => self.minute,
            Stage::Hour => self.hour,
            Stage::Day => self.day,
            Stage::Year => self.year,
        }
    }

    /// The polls are among `polls`, each later than the one of the stage
    /// before, and each shows what its stage waits for.
    pub open spec fn show(self, target: Moment, polls: Seq<Observation>) -> bool {
        &&& 0 <= self.second < self.minute < self.hour < self.day < self.year < polls.len()
        &&& matched(Stage::Calibration, 0, polls[self.second].local@)
        &&& matched(Stage::Minute, target.minute, polls[self.minute].local@)
        &&& matched(Stage::Hour, target.hour, polls[self.hour].local@)
        &&& matched(Stage::Day, target.day, polls[self.day].local@)
        &&& matched(Stage::Year, target.year, polls[self.year].local@)
    }
}

/// A stage that runs without a deadline, on polls that all find the task
/// running, ends at the latest at the first poll that shows its field.
pub proof fn lemma_stage_reaches_what_is_shown(
    stage: Stage,
    wanted: int,
    polls: Seq<Observation>,
    from: int,
    shown: int,
)
    requires
        0 <= from <= shown < polls.len() <= usize::MAX,
        forall|i: int| from <= i <= shown ==> (#[trigger] polls[i]).running,
        matched(stage, wanted, polls[shown].local@),
    ensures
        stage_end(stage, wanted, None, polls, from) matches StageEnd::Reached { at } && from <= at
            <= shown,
    decreases shown - from,
{
    assert(polls[from].running);
    if verdict(stage, wanted, None, polls[from]) == Verdict::Wait {
        lemma_stage_reaches_what_is_shown(stage, wanted, polls, from + 1, shown);
    }
}

/// The cascade from `stage` on reaches alignment if its first poll is no
/// later than the poll that shows its field.
pub proof fn lemma_cascade_reaches_what_is_shown(
    stage: Stage,
    target: Moment,
    polls: Seq<Observation>,
    from: int,
    shown: Sightings,
)
    requires
        polls.len() <= usize::MAX,
        shown.show(target, polls),
        0 <= from <= shown.of(stage),
        forall|i: int| 0 <= i < polls.len() ==> (#[trigger] polls[i]).running,
    ensures
        cascade(stage, target, None, polls, from) matches Outcome::Aligned { at } && at
            <= shown.year,
    decreases 5 - stage.rank(),
{
    lemma_stage_reaches_what_is_shown(stage, target.wanted(stage), polls, from, shown.of(stage));
    match stage_end(stage, target.wanted(stage), None, polls, from) {
        StageEnd::Reached { at } => match stage.next() {
            Some(following) => {
                lemma_cascade_reaches_what_is_shown(following, target, polls, at + 1, shown);
            },
            None => {},
        },
        _ => {},
    }
}

/// Liveness. While the task runs and no deadline is set, an alignment ends
/// aligned once the clock has shown second 0, then the target's minute,
/// hour, day and year, each at a later poll than the one before: at the
/// latest at the poll that shows the year.
pub proof fn lemma_alignment_is_reached(target: Moment, polls: Seq<Observation>, shown: Sightings)
    requires
        polls.len() <= usize::MAX,
        shown.show(target, polls),
        forall|i: int| 0 <= i < polls.len() ==> (#[trigger] polls[i]).running,
    ensures
        alignment(target, None, polls) matches Outcome::Aligned { at } && at <= shown.year,
{
    lemma_cascade_reaches_what_is_shown(Stage::Calibration, target, polls, 0, shown);
}

/// While the task runs and no deadline is set, no stage gives up.
pub proof fn lemma_running_never_fails(
    stage: Stage,
    target: Moment,
    polls: Seq<Observation>,
    from: int,
)
    requires
        0 <= from,
        polls.len() <= usize::MAX,
        forall|i: int| 0 <= i < polls.len() ==> (#[trigger] polls[i]).running,
    ensures
        !(cascade(stage, target, None, polls, from) is Failed),
    decreases 5 - stage.rank(),
{
    lemma_stage_end_is_first(stage, target.wanted(stage), None, polls, from);
    match stage_end(stage, target.wanted(stage), None, polls, from) {
        StageEnd::Reached { at } => match stage.next() {
            Some(following) => {
                lemma_running_never_fails(following, target, polls, at + 1);
            },
            None => {},
        },
        StageEnd::Stopped { at } => {
            assert(polls[at as int].running);
        },
        StageEnd::Pending => {},
    }
}

/// A deadline cuts a stage short or leaves it as it was: where the stage
/// without a deadline finds its field at poll `at`, the stage with one
/// either does the same, no poll up to `at` being late, or stops at the
/// first late poll.
pub proof fn lemma_deadline_cuts_stage(
    stage: Stage,
    wanted: int,
    limit: u64,
    polls: Seq<Observation>,
    from: int,
)
    requires
        0 <= from,
        polls.len() <= usize::MAX,
        stage_end(stage, wanted, None, polls, from) is Reached,
    ensures
        match stage_end(stage, wanted, Some(limit), polls, from) {
            StageEnd::Reached { at } => {
                &&& stage_end(stage, wanted, None, polls, from) == (StageEnd::Reached { at })
                &&& forall|j: int| from <= j <= at ==> (#[trigger] polls[j]).now <= limit
            },
            StageEnd::Stopped { at } => {
                &&& stage_end(stage, wanted, None, polls, from) matches StageEnd::Reached { at: free }
                &&& from <= at <= free
                &&& polls[at as int].now > limit
            },
            StageEnd::Pending => false,
        },
    decreases polls.len() - from,
{
    if from < polls.len() {
        if verdict(stage, wanted, None, polls[from]) == Verdict::Wait {
            lemma_stage_end_is_first(stage, wanted, None, polls, from + 1);
            if verdict(stage, wanted, Some(limit), polls[from]) == Verdict::Wait {
                lemma_deadline_cuts_stage(stage, wanted, limit, polls, from + 1);
            }
        }
    }
}

/// Safety of the deadline, stage by stage: see
/// `lemma_deadline_before_alignment_fails`.
pub proof fn lemma_deadline_cuts_cascade(
    stage: Stage,
    target: Moment,
    limit: u64,
    polls: Seq<Observation>,
    from: int,
)
    requires
        0 <= from,
        polls.len() <= usize::MAX,
        cascade(stage, target, None, polls, from) matches Outcome::Aligned { at } && limit
            < polls[at as int].now,
    ensures
        cascade(stage, target, Some(limit), polls, from) matches Outcome::Failed { failure, at }
            && polls[at as int].now > limit && (cascade(stage, target, None, polls, from)
            matches Outcome::Aligned { at: free } && at <= free),
    decreases 5 - stage.rank(),
{
    let wanted = target.wanted(stage);
    lemma_deadline_cuts_stage(stage, wanted, limit, polls, from);
    lemma_stage_end_is_first(stage, wanted, None, polls, from);
    match stage_end(stage, wanted, Some(limit), polls, from) {
        StageEnd::Reached { at } => match stage.next() {
            Some(following) => {
                lemma_deadline_cuts_cascade(following, target, limit, polls, at + 1);
            },
            None => {
                assert(polls[at as int].now <= limit);
            },
        },
        StageEnd::Stopped { at } => {
            match stage.next() {
                Some(following) => {
                    let free = stage_end(stage, wanted, None, polls, from)->Reached_at;
                    lemma_outcome_in_range(following, target, None, polls, free + 1);
                },
                None => {},
            }
        },
        StageEnd::Pending => {},
    }
}

/// Safety. A deadline that lies before the instant of alignment makes the
/// alignment fail: it ends at a poll that is past the deadline, no later
/// than the poll at which it would have aligned, and never in success.
pub proof fn lemma_deadline_before_alignment_fails(
    target: Moment,
    limit: u64,
    polls: Seq<Observation>,
)
    requires
        polls.len() <= usize::MAX,
        alignment(target, None, polls) matches Outcome::Aligned { at } && limit
            < polls[at as int].now,
    ensures
        alignment(target, Some(limit), polls) matches Outcome::Failed { failure, at }
            && polls[at as int].now > limit && (alignment(target, None, polls)
            matches Outcome::Aligned { at: free } && at <= free),
{
    lemma_deadline_cuts_cascade(Stage::Calibration, target, limit, polls, 0);
}

/// A stage on the first `cut` polls and on all of them: what was decided
/// on the shorter sequence stays; what was pending goes on from poll `cut`.
pub proof fn lemma_stage_on_prefix(
    stage: Stage,
    wanted: int,
    time_limit: Option<u64>,
    polls: Seq<Observation>,
    cut: int,
    from: int,
)
    requires
        0 <= from <= cut <= polls.len(),
    ensures
        match stage_end(stage, wanted, time_limit, polls.take(cut), from) {
            StageEnd::Pending => stage_end(stage, wanted, time_limit, polls, from) == stage_end(
                stage,
                wanted,
                time_limit,
                polls,
                cut,
            ),
            decided => stage_end(stage, wanted, time_limit, polls, from) == decided,
        },
    decreases cut - from,
{
    if from < cut {
        assert(polls.take(cut)[from] == polls[from]);
        if verdict(stage, wanted, time_limit, polls[from]) == Verdict::Wait {
            lemma_stage_on_prefix(stage, wanted, time_limit, polls, cut, from + 1);
        }
    }
}

/// An alignment that is over stays as it ended: polls that follow change
/// neither a success nor a failure.
pub proof fn lemma_outcome_is_final(
    stage: Stage,
    target: Moment,
    time_limit: Option<u64>,
    polls: Seq<Observation>,
    cut: int,
    from: int,
)
    requires
        0 <= from,
        0 <= cut <= polls.len() <= usize::MAX,
        !(cascade(stage, target, time_limit, polls.take(cut), from) is Pending),
    ensures
        cascade(stage, target, time_limit, polls, from) == cascade(
            stage,
            target,
            time_limit,
            polls.take(cut),
            from,
        ),
    decreases 5 - stage.rank(),
{
    let wanted = target.wanted(stage);
    if from <= cut {
        lemma_stage_on_prefix(stage, wanted, time_limit, polls, cut, from);
        lemma_stage_end_is_first(stage, wanted, time_limit, polls.take(cut), from);
        match stage_end(stage, wanted, time_limit, polls.take(cut), from) {
            StageEnd::Reached { at } => match stage.next() {
                Some(following) => {
                    lemma_outcome_is_final(following, target, time_limit, polls, cut, at + 1);
                },
                None => {},
            },
            _ => {},
        }
    }
}

/// Cancellation, stage by stage: see `lemma_cancel_fails_at_next_poll`.
pub proof fn lemma_cancel_cuts_cascade(
    stage: Stage,
    target: Moment,
    time_limit: Option<u64>,
    polls: Seq<Observation>,
    cut: int,
    from: int,
)
    requires
        0 <= from <= cut < polls.len() <= usize::MAX,
        !polls[cut].running,
        cascade(stage, target, time_limit, polls.take(cut), from) is Pending,
    ensures
        cascade(stage, target, time_limit, polls.take(cut), from) matches Outcome::Pending {
            stage: waiting,
        } && cascade(stage, target, time_limit, polls, from) == (Outcome::Failed {
            failure: waiting.failure(),
            at: cut as usize,
        }),
    decreases 5 - stage.rank(),
{
    let wanted = target.wanted(stage);
    lemma_stage_on_prefix(stage, wanted, time_limit, polls, cut, from);
    lemma_stage_end_is_first(stage, wanted, time_limit, polls.take(cut), from);
    match stage_end(stage, wanted, time_limit, polls.take(cut), from) {
        StageEnd::Reached { at } => match stage.next() {
            Some(following) => {
                lemma_cancel_cuts_cascade(following, target, time_limit, polls, cut, at + 1);
            },
            None => {},
        },
        StageEnd::Stopped { at } => {},
        StageEnd::Pending => {
            assert(verdict(stage, wanted, time_limit, polls[cut]) == Verdict::Stopped);
        },
    }
}

/// Cancellation. If the task is told to stop while a stage waits, the next
/// poll ends the alignment in that stage's failure: an alignment that was
/// pending after `cut` polls, and whose poll `cut` finds the flag cleared,
/// fails at poll `cut`. It cannot succeed later: see
/// `lemma_outcome_is_final`.
pub proof fn lemma_cancel_fails_at_next_poll(
    target: Moment,
    time_limit: Option<u64>,
    polls: Seq<Observation>,
    cut: int,
)
    requires
        0 <= cut < polls.len() <= usize::MAX,
        !polls[cut].running,
        alignment(target, time_limit, polls.take(cut)) is Pending,
    ensures
        alignment(target, time_limit, polls.take(cut)) matches Outcome::Pending { stage: waiting }
            && alignment(target, time_limit, polls) == (Outcome::Failed {
            failure: waiting.failure(),
            at: cut as usize,
        }),
{
    lemma_cancel_cuts_cascade(Stage::Calibration, target, time_limit, polls, cut, 0);
}

/// Two sequences of polls agree when, poll by poll, the clock shows the
/// same reading and the poll gives up in both or in neither. The monotonic
/// instants and the deadlines themselves may differ.
pub open spec fn same_readings(
    limit_a: Option<u64>,
    a: Seq<Observation>,
    limit_b: Option<u64>,
    b: Seq<Observation>,
) -> bool {
    &&& a.len() == b.len()
    &&& forall|i: int|
        0 <= i < a.len() ==> (#[trigger] a[i]).local@ == b[i].local@ && halted(limit_a, a[i])
            == halted(limit_b, b[i])
}

/// On polls that agree, a stage ends at the same poll in the same way.
pub proof fn lemma_same_readings_same_stage_end(
    stage: Stage,
    wanted: int,
    limit_a: Option<u64>,
    a: Seq<Observation>,
    limit_b: Option<u64>,
    b: Seq<Observation>,
    from: int,
)
    requires
        same_readings(limit_a, a, limit_b, b),
    ensures
        stage_end(stage, wanted, limit_a, a, from) == stage_end(stage, wanted, limit_b, b, from),
    decreases a.len() - from,
{
    if 0 <= from < a.len() {
        assert(a[from].local@ == b[from].local@);
        lemma_same_readings_same_stage_end(stage, wanted, limit_a, a, limit_b, b, from + 1);
    }
}

/// On polls that agree, the cascade from any stage on ends the same.
pub proof fn lemma_same_readings_same_cascade(
    stage: Stage,
    target: Moment,
    limit_a: Option<u64>,
    a: Seq<Observation>,
    limit_b: Option<u64>,
    b: Seq<Observation>,
    from: int,
)
    requires
        same_readings(limit_a, a, limit_b, b),
    ensures
        cascade(stage, target, limit_a, a, from) == cascade(stage, target, limit_b, b, from),
    decreases 5 - stage.rank(),
{
    let wanted = target.wanted(stage);
    lemma_same_readings_same_stage_end(stage, wanted, limit_a, a, limit_b, b, from);
    match stage_end(stage, wanted, limit_a, a, from) {
        StageEnd::Reached { at } => match stage.next() {
            Some(following) => {
                lemma_same_readings_same_cascade(following, target, limit_a, a, limit_b, b, at + 1);
            },
            None => {},
        },
        _ => {},
    }
}

/// Aligning twice to one target gives the same result, stage for stage,
/// whenever both calls see the same readings: each stage ends at the same
/// poll in the same way, and so does the alignment, whatever the monotonic
/// clock showed at either call.
pub proof fn lemma_same_readings_same_outcome(
    target: Moment,
    limit_a: Option<u64>,
    a: Seq<Observation>,
    limit_b: Option<u64>,
    b: Seq<Observation>,
)
    requires
        same_readings(limit_a, a, limit_b, b),
    ensures
        alignment(target, limit_a, a) == alignment(target, limit_b, b),
        forall|stage: Stage, from: int| #[trigger]
            stage_end(stage, target.wanted(stage), limit_a, a, from) == stage_end(
                stage,
                target.wanted(stage),
                limit_b,
                b,
                from,
            ),
{
    lemma_same_readings_same_cascade(Stage::Calibration, target, limit_a, a, limit_b, b, 0);
    assert forall|stage: Stage, from: int| #[trigger]
        stage_end(stage, target.wanted(stage), limit_a, a, from) == stage_end(
            stage,
            target.wanted(stage),
            limit_b,
            b,
            from,
        ) by {
        lemma_same_readings_same_stage_end(
            stage,
            target.wanted(stage),
            limit_a,
            a,
            limit_b,
            b,
            from,
        );
    }
}

} // verus!
