use vstd::prelude::*;

verus! {

/// The eight named stages of the synodic cycle, in the order in which they occur.
#[derive(Debug, Clone, Copy, PartialEq, Eq, Structural)]
pub enum Phase {
    New,
    WaxingCrescent,
    FirstQuarter,
    WaxingGibbous,
    Full,
    WaningGibbous,
    LastQuarter,
    WaningCrescent,
}

/// The stage that covers bucket `b` (0 to 7) of the cycle.
pub open spec fn phase_at(b: int) -> Phase {
    if b == 0 {
        Phase::New
    } else if b == 1 {
        Phase::WaxingCrescent
    } else if b == 2 {
        Phase::FirstQuarter
    } else if b == 3 {
        Phase::WaxingGibbous
    } else if b == 4 {
        Phase::Full
    } else if b == 5 {
        Phase::WaningGibbous
    } else if b == 6 {
        Phase::LastQuarter
    } else {
        Phase::WaningCrescent
    }
}

/// The bucket of a cycle position given in whole eighths of a cycle: the
/// count of eighths reduced into `0..8`, negative counts included.
pub open spec fn eighths_bucket(eighths: int) -> int {
    eighths % 8
}

impl Phase {
    /// Position of the stage in the cycle, from 0 (new) to 7 (waning crescent).
    pub open spec fn spec_index(self) -> int {
        match self {
            Phase::New => 0,
            Phase::WaxingCrescent => 1,
            Phase::FirstQuarter => 2,
            Phase::WaxingGibbous => 3,
            Phase::Full => 4,
            Phase::WaningGibbous => 5,
            Phase::LastQuarter => 6,
            Phase::WaningCrescent => 7,
        }
    }

    /// Position of the stage in the cycle, from 0 (new) to 7 (waning crescent).
    pub fn index(&self) -> (r: u8)
        ensures
            r as int == self.spec_index(),
            r < 8,
    {
        match self {
            Phase::New => 0,
            Phase::WaxingCrescent => 1,
            Phase::FirstQuarter => 2,
            Phase::WaxingGibbous => 3,
            Phase::Full => 4,
            Phase::WaningGibbous => 5,
            Phase::LastQuarter => 6,
            Phase::WaningCrescent => 7,
        }
    }

    /// The stage for a synodic position that has been rounded to a whole
    /// number of eighths of a cycle. The count may be negative (a position
    /// just before the reference new moon) or reach 8 (a position that rounds
    /// up to the next new moon); it is reduced into the eight buckets first.
    pub fn from_eighths(eighths: i64) -> (r: Phase)
        ensures
            r == phase_at(eighths_bucket(eighths as int)),
            r.spec_index() == eighths_bucket(eighths as int),
    {
        let bucket: i64 = if eighths >= 0 {
            eighths % 8
        } else {
            7 - (-(eighths + 1)) % 8
        };
        assert(bucket == eighths_bucket(eighths as int));
        match bucket {
            0 => Phase::New,
            1 => Phase::WaxingCrescent,
            2 => Phase::FirstQuarter,
            3 => Phase::WaxingGibbous,
            4 => Phase::Full,
            5 => Phase::WaningGibbous,
            6 => Phase::LastQuarter,
            _ => Phase::WaningCrescent,
        }
    }
}

} // verus!
