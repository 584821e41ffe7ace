//! The moment that a cascade waits for.

use crate::cascade::Stage;
use vstd::prelude::*;

verus! {

/// What a target is: the fields that the stages compare, one each.
pub struct Moment {
    pub hour: int,
    pub minute: int,
    pub day: int,
    pub year: int,
}

impl Moment {
    /// An hour of the day, a minute of the hour, a day of a month; any year.
    pub open spec fn valid(self) -> bool {
        &&& 0 <= self.hour <= 23
        &&& 0 <= self.minute <= 59
        &&& 1 <= self.day <= 31
    }

    /// The value that `stage` compares its field with. Calibration compares
    /// with nothing of the target.
    pub open spec fn wanted(self, stage: Stage) -> int {
        match stage {
            Stage::Calibration => 0,
            Stage::Minute => self.minute,
            Stage::Hour => self.hour,
            Stage::Day => self.day,
            Stage::Year => self.year,
        }
    }
}

/// The wall-clock point that a cascade must reach. Each field is matched on
/// its own against the clock's reading; no instant is computed from them.
#[derive(Clone, Copy, Debug)]
pub struct TargetMoment {
    hour: u32,
    minute: u32,
    day: u32,
    year: i32,
}

impl View for TargetMoment {
    type V = Moment;

    closed spec fn view(&self) -> Moment {
        Moment {
            hour: self.hour as int,
            minute: self.minute as int,
            day: self.day as int,
            year: self.year as int,
        }
    }
}

impl TargetMoment {
    #[verifier::type_invariant]
    spec fn inv(self) -> bool {
        self@.valid()
    }

    /// Builds a target from its fields, if each lies in its range.
    pub fn new(hour: u32, minute: u32, day: u32, year: i32) -> (r: Option<TargetMoment>)
        ensures
            r is Some <==> (Moment {
                hour: hour as int,
                minute: minute as int,
                day: day as int,
                year: year as int,
            }).valid(),
            r matches Some(t) ==> t@ == (Moment {
                hour: hour as int,
                minute: minute as int,
                day: day as int,
                year: year as int,
            }),
    {
        if hour <= 23 && minute <= 59 && 1 <= day && day <= 31 {
            Some(TargetMoment { hour, minute, day, year })
        } else {
            None
        }
    }

    pub fn hour(&self) -> (h: u32)
        ensures
            h == self@.hour,
            self@.valid(),
    {
        proof {
            use_type_invariant(self);
        }
        self.hour
    }

    pub fn minute(&self) -> (m: u32)
        ensures
            m == self@.minute,
            self@.valid(),
    {
        proof {
            use_type_invariant(self);
        }
        self.minute
    }

    pub fn day(&self) -> (d: u32)
        ensures
            d == self@.day,
            self@.valid(),
    {
        proof {
            use_type_invariant(self);
        }
        self.day
    }

    pub fn year(&self) -> (y: i32)
        ensures
            y == self@.year,
            self@.valid(),
    {
        proof {
            use_type_invariant(self);
        }
        self.year
    }

    /// The value that `stage` compares its field with.
    pub fn wanted(&self, stage: Stage) -> (w: i64)
        ensures
            w == self@.wanted(stage),
    {
        match stage {
            Stage::Calibration => 0,
            Stage::Minute => self.minute as i64,
            Stage::Hour => self.hour as i64,
            Stage::Day => self.day as i64,
            Stage::Year => self.year as i64,
        }
    }
}

} // verus!
