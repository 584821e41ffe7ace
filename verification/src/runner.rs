//! The steady state after alignment: run the payload once per tick for as
//! long as the task is to run.

use crate::ticks::{TickSource, Ticks};
use vstd::prelude::*;

verus! {

/// What the caller is to do at a tick boundary.
#[derive(Clone, Copy, Debug, PartialEq, Eq, Structural)]
pub enum Turn {
    /// Run the payload, then sleep until the monotonic clock shows
    /// `then_sleep_until`, then come back.
    Invoke { then_sleep_until: u64 },
    /// The task was told to stop: leave the loop.
    Stop,
}

/// The loop of a scheduled task, one turn at a time. It owns the ticks; how
/// the payload fared is no input of it, so a payload that fails or is slow
/// can neither stop the loop nor move a tick.
#[derive(Debug)]
pub struct ScheduledTaskRunner {
    ticks: TickSource,
}

impl View for ScheduledTaskRunner {
    type V = Ticks;

    closed spec fn view(&self) -> Ticks {
        self.ticks@
    }
}

impl ScheduledTaskRunner {
    pub fn new(ticks: TickSource) -> (runner: ScheduledTaskRunner)
        ensures
            runner@ == ticks@,
    {
        ScheduledTaskRunner { ticks }
    }

    /// Decides one turn of the loop from the flag as it is read now. While
    /// the task runs, the payload is due and the next tick is taken; once
    /// the flag is cleared the loop ends and the ticks stay as they are.
    pub fn turn(&mut self, running: bool) -> (turn: Turn)
        ensures
            running ==> turn == (Turn::Invoke { then_sleep_until: old(self)@.next }),
            running ==> final(self)@ == old(self)@.advance(),
            !running ==> turn == Turn::Stop,
            !running ==> final(self)@ == old(self)@,
    {
        if running {
            Turn::Invoke { then_sleep_until: self.ticks.tick() }
        } else {
            Turn::Stop
        }
    }
}

} // verus!
