use vstd::prelude::*;
use crate::time::{before, Instant};

verus! {

/// When runs happen.
#[derive(Clone, Copy, Debug, PartialEq, Eq, Structural)]
pub enum SchedulePlan {
    /// One run now, and no more.
    RunOnce,
    /// The first run at `first_run`, then one every interval.
    Delayed { first_run: Instant },
    /// One run now, then one every interval.
    Recurring,
}

/// The plan for runs every `days_between` days from a checkpoint at `start`, decided
/// at `now`: `None` where the first run's day cannot be counted.
pub open spec fn plan_of(days_between: u32, start: Instant, now: Instant) -> Option<SchedulePlan> {
    if days_between == 0 {
        Some(SchedulePlan::RunOnce)
    } else if !before(start, now) {
        let day = start.day + days_between;
        if day <= i32::MAX {
            Some(SchedulePlan::Delayed { first_run: Instant { day: day as i32, secs: start.secs, nanos: start.nanos } })
        } else {
            None
        }
    } else {
        Some(SchedulePlan::Recurring)
    }
}

/// Decides when runs happen: once and no more where the interval is zero; first an
/// interval after the checkpoint where that lies ahead; else now and then every
/// interval.
pub fn schedule_plan(days_between: u32, start: Instant, now: Instant) -> (r: Option<SchedulePlan>)
    ensures
        r == plan_of(days_between, start, now),
{
    if days_between == 0 {
        Some(SchedulePlan::RunOnce)
    } else if !start.is_before(&now) {
        let day: i64 = start.day as i64 + days_between as i64;
        if day <= i32::MAX as i64 {
            Some(SchedulePlan::Delayed { first_run: Instant { day: day as i32, secs: start.secs, nanos: start.nanos } })
        } else {
            None
        }
    } else {
        Some(SchedulePlan::Recurring)
    }
}

} // verus!
