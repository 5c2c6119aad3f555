//! The timer that drives the tick.

use vstd::prelude::*;
use crate::error::ErrorKind;

verus! {

/// The time between two ticks, in milliseconds.
pub const TICK_MILLIS: u64 = 50;

/// The largest number of milliseconds whose microseconds fit in an `i64`.
pub const MAX_INTERVAL_MILLIS: u64 = 9_223_372_036_854_775;

/// When a scheduled call is due.
#[derive(Clone, Copy, Debug, PartialEq, Eq, Structural)]
pub enum ScheduleAt {
    /// Again and again, with this many microseconds between two calls.
    Interval(i64),
    /// Once, at this many microseconds after the Unix epoch.
    Time(i64),
}

/// The row that schedules the tick.
#[derive(Clone, Copy, Debug, PartialEq, Eq, Structural)]
pub struct MoveAllPlayersTimer {
    pub scheduled_id: u64,
    pub scheduled_at: ScheduleAt,
}

/// The tick scheduler: unarmed while it holds no timer, armed once it holds
/// one. An armed scheduler stays armed, for the timer is an interval.
#[derive(Clone, Copy, Debug, PartialEq, Eq, Structural)]
pub struct Scheduler {
    pub timer: Option<MoveAllPlayersTimer>,
}

/// The timer of the tick: the first row of its table, due every 50 ms.
pub open spec fn tick_timer() -> MoveAllPlayersTimer {
    MoveAllPlayersTimer { scheduled_id: 1, scheduled_at: ScheduleAt::Interval(50_000) }
}

/// The length of `millis` milliseconds in microseconds, as
/// `spacetimedb::TimeDuration::from` gives it for the `std::time::Duration`
/// of that many milliseconds. The conversion takes the duration's whole
/// microseconds, a thousand for each millisecond, and panics where they
/// exceed an `i64`: `requires` keeps such lengths out.
#[verifier::external_body]
fn interval_micros(millis: u64) -> (micros: i64)
    requires
        millis <= MAX_INTERVAL_MILLIS,
    ensures
        micros == millis * 1000,
{
    spacetimedb::TimeDuration::from(std::time::Duration::from_millis(millis)).to_micros()
}

impl Scheduler {
    /// A scheduler before start-up: unarmed.
    pub fn new() -> (scheduler: Scheduler)
        ensures
            scheduler.timer.is_none(),
    {
        Scheduler { timer: None }
    }

    /// Whether the timer exists.
    pub fn is_armed(&self) -> (armed: bool)
        ensures
            armed == self.timer.is_some(),
    {
        self.timer.is_some()
    }
}

/// Arms the scheduler at start-up. A scheduler that is armed already refuses
/// with `DuplicateSchedule` and keeps its timer.
pub fn init(scheduler: &mut Scheduler) -> (r: Result<(), ErrorKind>)
    ensures
        old(scheduler).timer.is_some() ==> r == Err::<(), ErrorKind>(ErrorKind::DuplicateSchedule)
            && *final(scheduler) == *old(scheduler),
        old(scheduler).timer.is_none() ==> r == Ok::<(), ErrorKind>(()) && final(scheduler).timer
            == Some(tick_timer()),
{
    if scheduler.timer.is_some() {
        return Err(ErrorKind::DuplicateSchedule);
    }
    let micros: i64 = interval_micros(TICK_MILLIS);
    scheduler.timer = Some(
        MoveAllPlayersTimer { scheduled_id: 1, scheduled_at: ScheduleAt::Interval(micros) },
    );
    Ok(())
}

} // verus!
