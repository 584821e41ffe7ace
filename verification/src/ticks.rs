//! Fixed-rate ticks: instants anchored to a start, one period apart.

use vstd::prelude::*;

verus! {

/// Proof that a cascade ran to its end: the instant of the poll that
/// completed it, on the monotonic clock. Only an alignment makes one.
#[derive(Clone, Copy, Debug)]
pub struct AlignedOk {
    at: u64,
}

impl View for AlignedOk {
    type V = u64;

    closed spec fn view(&self) -> u64 {
        self.at
    }
}

impl AlignedOk {
    pub(crate) fn new(at: u64) -> (token: AlignedOk)
        ensures
            token@ == at,
    {
        AlignedOk { at }
    }

    /// The instant of alignment.
    pub fn at(&self) -> (at: u64)
        ensures
            at == self@,
    {
        self.at
    }
}

/// `instant + period`, held at the end of the clock's range.
pub open spec fn later(instant: int, period: int) -> int {
    if instant + period > u64::MAX {
        u64::MAX as int
    } else {
        instant + period
    }
}

/// The instant of tick `k` of a source whose tick 0 falls on `anchor`: `k`
/// periods after it, held at the end of the clock's range.
pub open spec fn tick_instant(anchor: int, period: int, k: nat) -> int {
    if anchor + k * period > u64::MAX {
        u64::MAX as int
    } else {
        anchor + k * period
    }
}

/// What a tick source is: its period and the instant of its next tick.
pub struct Ticks {
    pub period: u64,
    pub next: u64,
}

impl Ticks {
    /// The source after one tick was taken.
    pub open spec fn advance(self) -> Ticks {
        Ticks { period: self.period, next: later(self.next as int, self.period as int) as u64 }
    }

    /// The source after `k` ticks were taken.
    pub open spec fn after(self, k: nat) -> Ticks
        decreases k,
    {
        if k == 0 {
            self
        } else {
            self.after((k - 1) as nat).advance()
        }
    }
}

/// A source of ticks at a fixed rate. It hands out the instant of each tick
/// in turn; the instants depend on the anchor and the period alone, never on
/// when the caller comes to ask. It belongs to the task that made it: there
/// is no copy of it.
#[derive(Debug)]
pub struct TickSource {
    period: u64,
    next: u64,
}

impl View for TickSource {
    type V = Ticks;

    closed spec fn view(&self) -> Ticks {
        Ticks { period: self.period, next: self.next }
    }
}

impl TickSource {
    /// A source whose first tick falls on `start` and the others one
    /// `period` after the other.
    pub fn anchored(start: u64, period: u64) -> (ticks: TickSource)
        ensures
            ticks@ == (Ticks { period, next: start }),
    {
        TickSource { period, next: start }
    }

    /// Time between two ticks, in nanoseconds.
    pub fn period(&self) -> (p: u64)
        ensures
            p == self@.period,
    {
        self.period
    }

    /// The instant of the next tick, which stays the next.
    pub fn next_deadline(&self) -> (next: u64)
        ensures
            next == self@.next,
    {
        self.next
    }

    /// Takes the next tick: returns the instant until which the caller is to
    /// sleep, and moves on by one period.
    pub fn tick(&mut self) -> (deadline: u64)
        ensures
            deadline == old(self)@.next,
            final(self)@ == old(self)@.advance(),
    {
        let deadline = self.next;
        self.next = self.next.saturating_add(self.period);
        deadline
    }
}

/// The source that starts at an alignment. With a period, tick 0 is the
/// alignment itself and is spent: the next tick is one period later. Without
/// one, the period is zero and every tick falls on the alignment.
pub open spec fn started(aligned_at: u64, period: Option<u64>) -> Ticks {
    match period {
        Some(p) => (Ticks { period: p, next: aligned_at }).advance(),
        None => Ticks { period: 0, next: aligned_at },
    }
}

/// Turns an alignment into a source of ticks.
pub struct PeriodicScheduler;

impl PeriodicScheduler {
    /// Starts the ticks at the instant of alignment. It cannot fail, and it
    /// takes nothing but the token of an alignment that succeeded.
    pub fn start(aligned_at: AlignedOk, period: Option<u64>) -> (ticks: TickSource)
        ensures
            ticks@ == started(aligned_at@, period),
    {
        match period {
            Some(p) => {
                let mut ticks = TickSource::anchored(aligned_at.at(), p);
                ticks.tick();
                ticks
            },
            None => TickSource::anchored(aligned_at.at(), 0),
        }
    }
}

/// No drift: after `k` ticks the next one is `k` periods after the one that
/// was next at first, whatever happened between them.
pub proof fn lemma_ticks_do_not_drift(ticks: Ticks, k: nat)
    ensures
        ticks.after(k).period == ticks.period,
        ticks.after(k).next == tick_instant(ticks.next as int, ticks.period as int, k),
    decreases k,
{
    if k == 0 {
        assert(0 * ticks.period == 0) by (nonlinear_arith);
    } else {
        let j = (k - 1) as nat;
        lemma_ticks_do_not_drift(ticks, j);
        assert(k * ticks.period == j * ticks.period + ticks.period) by (nonlinear_arith)
            requires
                k == j + 1,
        ;
    }
}

/// Two ticks in a row are exactly one period apart, as long as the later one
/// lies within the clock's range.
pub proof fn lemma_ticks_one_period_apart(anchor: int, period: int, k: nat)
    requires
        0 <= period,
        0 <= anchor,
        anchor + (k + 1) * period <= u64::MAX,
    ensures
        tick_instant(anchor, period, k + 1) - tick_instant(anchor, period, k) == period,
{
    assert((k + 1) * period == k * period + period) by (nonlinear_arith);
    assert(k * period >= 0) by (nonlinear_arith)
        requires
            period >= 0,
    ;
}

} // verus!
