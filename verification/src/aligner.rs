//! The cascade as a machine that is fed one poll at a time, for a caller
//! that reads a live clock and sleeps between polls.

use crate::align::{cascade, Outcome};
use crate::cascade::{poll, verdict, AlignFailure, Observation, Stage, Verdict};
use crate::target::{Moment, TargetMoment};
use crate::ticks::{later, AlignedOk, TickSource, Ticks};
use vstd::prelude::*;

verus! {

/// Whether a live alignment still waits, and how it ended if not.
#[derive(Clone, Copy, Debug, PartialEq, Eq, Structural)]
pub enum Phase {
    Waiting,
    /// Aligned at the poll whose monotonic instant was `at`.
    Aligned { at: u64 },
    Failed { failure: AlignFailure },
}

/// What the caller is to do after a poll.
#[derive(Clone, Copy, Debug, PartialEq, Eq, Structural)]
pub enum Step {
    /// A stage found its field: read the clock again at once, for the next.
    Observe,
    /// Sleep until the monotonic clock shows `until`, then read the clock.
    Sleep { until: u64 },
    /// All five stages found their field.
    Aligned { at: u64 },
    /// The alignment is over and has failed.
    Failed { failure: AlignFailure },
}

/// What a live alignment is.
pub struct AlignerState {
    pub target: Moment,
    pub time_limit: Option<u64>,
    /// The stage that polls now.
    pub stage: Stage,
    /// The ticks of the stage, anchored at its first poll; `None` until it
    /// has waited.
    pub ticks: Option<Ticks>,
    pub phase: Phase,
}

impl AlignerState {
    /// The ticks from which a poll at `now` that says `Wait` takes the next:
    /// those of the stage, which start at `now` if the stage has not waited
    /// yet, so that its first tick fires at once.
    pub open spec fn pace(self, now: u64) -> Ticks {
        match self.ticks {
            None => Ticks { period: self.stage.period(), next: now },
            Some(ticks) => ticks,
        }
    }

    /// The state after a poll saw `o`. An alignment that is over stays as it
    /// is.
    pub open spec fn next(self, o: Observation) -> AlignerState {
        match self.phase {
            Phase::Waiting => match verdict(
                self.stage,
                self.target.wanted(self.stage),
                self.time_limit,
                o,
            ) {
                Verdict::Stopped => AlignerState {
                    phase: Phase::Failed { failure: self.stage.failure() },
                    ..self
                },
                Verdict::Reached => match self.stage.next() {
                    None => AlignerState { phase: Phase::Aligned { at: o.now }, ..self },
                    Some(following) => AlignerState { stage: following, ticks: None, ..self },
                },
                Verdict::Wait => AlignerState { ticks: Some(self.pace(o.now).advance()), ..self },
            },
            _ => self,
        }
    }

    /// What the caller is told after a poll saw `o`.
    pub open spec fn step(self, o: Observation) -> Step {
        match self.phase {
            Phase::Waiting => match verdict(
                self.stage,
                self.target.wanted(self.stage),
                self.time_limit,
                o,
            ) {
                Verdict::Stopped => Step::Failed { failure: self.stage.failure() },
                Verdict::Reached => match self.stage.next() {
                    None => Step::Aligned { at: o.now },
                    Some(following) => Step::Observe,
                },
                Verdict::Wait => Step::Sleep { until: self.pace(o.now).next },
            },
            Phase::Aligned { at } => Step::Aligned { at },
            Phase::Failed { failure } => Step::Failed { failure },
        }
    }

    /// The state after the polls from `polls[from]` on, each in turn.
    pub open spec fn run(self, polls: Seq<Observation>, from: int) -> AlignerState
        decreases polls.len() - from,
    {
        if from < 0 || from >= polls.len() {
            self
        } else {
            self.next(polls[from]).run(polls, from + 1)
        }
    }
}

/// A live alignment: the target, the deadline, and how far the cascade has
/// come.
#[derive(Debug)]
pub struct Aligner {
    target: TargetMoment,
    time_limit: Option<u64>,
    stage: Stage,
    ticks: Option<TickSource>,
    phase: Phase,
}

impl View for Aligner {
    type V = AlignerState;

    closed spec fn view(&self) -> AlignerState {
        AlignerState {
            target: self.target@,
            time_limit: self.time_limit,
            stage: self.stage,
            ticks: match self.ticks {
                None => None,
                Some(ticks) => Some(ticks@),
            },
            phase: self.phase,
        }
    }
}

/// The state in which every alignment starts.
pub open spec fn initial(target: Moment, time_limit: Option<u64>) -> AlignerState {
    AlignerState {
        target,
        time_limit,
        stage: Stage::Calibration,
        ticks: None,
        phase: Phase::Waiting,
    }
}

impl Aligner {
    /// An alignment to `target` that has not polled yet.
    pub fn new(target: TargetMoment, time_limit: Option<u64>) -> (a: Aligner)
        ensures
            a@ == initial(target@, time_limit),
    {
        Aligner {
            target,
            time_limit,
            stage: Stage::Calibration,
            ticks: None,
            phase: Phase::Waiting,
        }
    }

    pub fn stage(&self) -> (stage: Stage)
        ensures
            stage == self@.stage,
    {
        self.stage
    }

    pub fn phase(&self) -> (phase: Phase)
        ensures
            phase == self@.phase,
    {
        self.phase
    }

    /// Takes one poll and says what to do next.
    pub fn observe(&mut self, o: &Observation) -> (step: Step)
        ensures
            final(self)@ == old(self)@.next(*o),
            step == old(self)@.step(*o),
    {
        match self.phase {
            Phase::Aligned { at } => Step::Aligned { at },
            Phase::Failed { failure } => Step::Failed { failure },
            Phase::Waiting => match poll(
                self.stage,
                self.target.wanted(self.stage),
                &self.time_limit,
                o,
            ) {
                Verdict::Stopped => {
                    let failure = self.stage.failure();
                    self.phase = Phase::Failed { failure };
                    Step::Failed { failure }
                },
                Verdict::Reached => match self.stage.next() {
                    None => {
                        self.phase = Phase::Aligned { at: o.now };
                        Step::Aligned { at: o.now }
                    },
                    Some(following) => {
                        self.stage = following;
                        self.ticks = None;
                        Step::Observe
                    },
                },
                Verdict::Wait => {
                    let mut ticks = match self.ticks.take() {
                        None => TickSource::anchored(o.now, self.stage.period()),
                        Some(ticks) => ticks,
                    };
                    let until = ticks.tick();
                    self.ticks = Some(ticks);
                    Step::Sleep { until }
                },
            },
        }
    }

    /// The token of a finished alignment, its failure, or `None` while it
    /// still waits.
    pub fn result(&self) -> (r: Option<Result<AlignedOk, AlignFailure>>)
        ensures
            match self@.phase {
                Phase::Waiting => r is None,
                Phase::Aligned { at } => r matches Some(Ok(token)) && token@ == at,
                Phase::Failed { failure } => r == Some(Err::<AlignedOk, AlignFailure>(failure)),
            },
    {
        match self.phase {
            Phase::Waiting => None,
            Phase::Aligned { at } => Some(Ok(AlignedOk::new(at))),
            Phase::Failed { failure } => Some(Err(failure)),
        }
    }
}

/// The instant of the poll after `o`, for a caller in state `s` that sleeps
/// as long as it is told and loses no time otherwise.
pub open spec fn wake(s: AlignerState, o: Observation) -> u64 {
    match s.step(o) {
        Step::Sleep { until } => if until > o.now {
            until
        } else {
            o.now
        },
        _ => o.now,
    }
}

/// A poll in state `s` that sees `o` is timely when the stage ticks at its
/// own period and `o` was not taken before the tick that it slept for.
pub open spec fn timely(s: AlignerState, o: Observation) -> bool {
    s.ticks matches Some(ticks) ==> ticks.period == s.stage.period() && ticks.next <= o.now
        + ticks.period
}

/// No poll is further than one period away. After a timely poll the caller
/// sleeps for one period of the waiting stage at the most, so that a flag
/// which is cleared meanwhile is seen, and the alignment fails, within that
/// period; and the poll that follows is timely again if the caller does not
/// wake before it is told.
pub proof fn lemma_next_poll_within_one_period(
    s: AlignerState,
    o: Observation,
    following: Observation,
)
    requires
        s.phase == Phase::Waiting,
        timely(s, o),
        following.now >= wake(s, o),
    ensures
        o.now <= wake(s, o) <= o.now + s.stage.period(),
        timely(s.next(o), following),
{
}

/// The phase in which a machine stands after the polls on which a cascade
/// ended in `outcome`.
pub open spec fn phase_of(outcome: Outcome, polls: Seq<Observation>) -> Phase {
    match outcome {
        Outcome::Aligned { at } => Phase::Aligned { at: polls[at as int].now },
        Outcome::Failed { failure, at } => Phase::Failed { failure },
        Outcome::Pending { stage } => Phase::Waiting,
    }
}

/// An alignment that is over takes no more polls into account.
pub proof fn lemma_phase_is_final(s: AlignerState, polls: Seq<Observation>, from: int)
    requires
        s.phase != Phase::Waiting,
    ensures
        s.run(polls, from) == s,
    decreases polls.len() - from,
{
    if 0 <= from < polls.len() {
        lemma_phase_is_final(s, polls, from + 1);
    }
}

/// The machine is the cascade, one poll at a time: fed the polls that a
/// cascade runs over, it ends in the phase of the cascade's outcome, and
/// waits in the stage in which the cascade is pending.
pub proof fn lemma_machine_follows_cascade(s: AlignerState, polls: Seq<Observation>, from: int)
    requires
        0 <= from,
        polls.len() <= usize::MAX,
        s.phase == Phase::Waiting,
    ensures
        s.run(polls, from).phase == phase_of(
            cascade(s.stage, s.target, s.time_limit, polls, from),
            polls,
        ),
        cascade(s.stage, s.target, s.time_limit, polls, from) matches Outcome::Pending { stage }
            ==> s.run(polls, from).stage == stage,
    decreases polls.len() - from,
{
    if from < polls.len() {
        let after = s.next(polls[from]);
        if after.phase == Phase::Waiting {
            lemma_machine_follows_cascade(after, polls, from + 1);
        } else {
            lemma_phase_is_final(after, polls, from + 1);
        }
    }
}

/// Fixed rate. While a stage waits, the instants until which the caller
/// sleeps are one period of the stage apart, whenever the polls between
/// them took place: the first is the instant of the stage's first poll, and
/// each one after is one period later than the one before.
pub proof fn lemma_sleeps_one_period_apart(s: AlignerState, first: Observation, second: Observation)
    requires
        s.phase == Phase::Waiting,
        s.ticks matches Some(ticks) ==> ticks.period == s.stage.period(),
        s.step(first) is Sleep,
        s.next(first).step(second) is Sleep,
    ensures
        s.ticks is None ==> s.step(first)->until == first.now,
        s.next(first).step(second)->until == later(
            s.step(first)->until as int,
            s.stage.period() as int,
        ),
        s.next(first).ticks matches Some(ticks) && ticks.period == s.stage.period(),
{
}

} // verus!
