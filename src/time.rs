use vstd::prelude::*;

use crate::percentage::{Percentage, fits_i32, tdiv};

verus! {

/// Simulation steps per second.
pub const SIMULATION_FREQ: u64 = 30;

/// Nominal duration of one simulation step in milliseconds; also the longest
/// step a single frame may take.
pub const MAX_MILLIS_ALLOWED_FOR_SINGLE_FRAME: u64 = 1000 / SIMULATION_FREQ;

/// Latest simulation time the library handles, in milliseconds; far beyond
/// any session, it leaves room to add durations without overflow.
pub const MAX_SIMULATION_MILLIS: i64 = 0x1000_0000_0000_0000;

/// A point of simulation time, in milliseconds since the simulation started.
#[derive(Copy, Clone, Debug, PartialEq, Eq, Structural)]
pub struct ElapsedTime(pub i64);

impl ElapsedTime {
    pub fn add_millis(&self, millis: i64) -> (r: ElapsedTime)
        requires
            i64::MIN <= self.0 + millis <= i64::MAX,
        ensures
            r.0 == self.0 + millis,
    {
        ElapsedTime(self.0 + millis)
    }

    pub fn minus(&self, other: ElapsedTime) -> (r: ElapsedTime)
        requires
            i64::MIN <= self.0 - other.0 <= i64::MAX,
        ensures
            r.0 == self.0 - other.0,
    {
        ElapsedTime(self.0 - other.0)
    }

    pub fn add(&self, other: ElapsedTime) -> (r: ElapsedTime)
        requires
            i64::MIN <= self.0 + other.0 <= i64::MAX,
        ensures
            r.0 == self.0 + other.0,
    {
        ElapsedTime(self.0 + other.0)
    }

    pub fn elapsed_since(&self, other: ElapsedTime) -> (r: ElapsedTime)
        requires
            i64::MIN <= self.0 - other.0 <= i64::MAX,
        ensures
            r.0 == self.0 - other.0,
    {
        ElapsedTime(self.0 - other.0)
    }

    /// How far `self` lies between `from` and `to`, as a percentage
    /// (0% at `from`, 100% at `to`), rounded toward zero.
    pub fn percentage_between(&self, from: ElapsedTime, to: ElapsedTime) -> (r: Percentage)
        requires
            from.0 != to.0,
            i64::MIN <= (self.0 - from.0) * 100_000 <= i64::MAX,
            i64::MIN <= to.0 - from.0 <= i64::MAX,
            fits_i32(tdiv((self.0 - from.0) * 100_000, to.0 - from.0)),
        ensures
            r.value() == tdiv((self.0 - from.0) * 100_000, to.0 - from.0),
    {
        let current = self.0 - from.0;
        let range = to.0 - from.0;
        Percentage::from_raw((current * 100_000 / range) as i32)
    }

    /// Pushes this deadline to at least `millis` after `system_time`.
    pub fn run_at_least_until_millis(&mut self, system_time: ElapsedTime, millis: i64)
        requires
            i64::MIN <= system_time.0 + millis <= i64::MAX,
        ensures
            final(self).0 == if old(self).0 >= system_time.0 + millis {
                old(self).0 as int
            } else {
                system_time.0 + millis
            },
    {
        let until = system_time.0 + millis;
        if until > self.0 {
            self.0 = until;
        }
    }

    /// True when this moment is not later than `system_time`.
    pub fn has_already_passed(&self, system_time: ElapsedTime) -> (r: bool)
        ensures
            r == (self.0 <= system_time.0),
    {
        self.0 <= system_time.0
    }

    /// True when this moment is later than `other`.
    pub fn has_not_passed_yet(&self, other: ElapsedTime) -> (r: bool)
        ensures
            r == (self.0 > other.0),
    {
        self.0 > other.0
    }

    pub fn is_earlier_than(&self, system_time: ElapsedTime) -> (r: bool)
        ensures
            r == (self.0 <= system_time.0),
    {
        self.0 <= system_time.0
    }

    pub fn is_later_than(&self, other: ElapsedTime) -> (r: bool)
        ensures
            r == (self.0 > other.0),
    {
        self.0 > other.0
    }

    pub fn max(&self, other: ElapsedTime) -> (r: ElapsedTime)
        ensures
            r.0 == if self.0 >= other.0 { self.0 } else { other.0 },
    {
        if self.0 >= other.0 { *self } else { other }
    }

    pub fn min(&self, other: ElapsedTime) -> (r: ElapsedTime)
        ensures
            r.0 == if self.0 <= other.0 { self.0 } else { other.0 },
    {
        if self.0 <= other.0 { *self } else { other }
    }

    pub fn as_millis(&self) -> (r: i64)
        ensures
            r == self.0,
    {
        self.0
    }
}

/// The simulation clock: a tick counter, the accumulated simulation time and
/// the length of the last step.
#[derive(Copy, Clone, Debug, PartialEq, Eq, Structural)]
pub struct EngineTime {
    pub tick: u64,
    pub time: ElapsedTime,
    /// Milliseconds the previous step took.
    pub dt: u64,
    /// When set, every step takes exactly this many milliseconds, whatever
    /// the frame reported; used where wall-clock time must not leak in.
    pub fix_dt_for_test: Option<u64>,
}

impl EngineTime {
    pub fn new() -> (r: EngineTime)
        ensures
            r.tick == 1,
            r.time.0 == 0,
            r.dt == 1,
            r.fix_dt_for_test is None,
    {
        EngineTime { tick: 1, time: ElapsedTime(0), dt: 1, fix_dt_for_test: None }
    }

    pub fn new_for_tests(fix_dt_for_test: u64) -> (r: EngineTime)
        ensures
            r.tick == 1,
            r.time.0 == 0,
            r.dt == 1,
            r.fix_dt_for_test == Some(fix_dt_for_test),
    {
        EngineTime { tick: 1, time: ElapsedTime(0), dt: 1, fix_dt_for_test: Some(fix_dt_for_test) }
    }

    /// The step length that `update_timers` takes for a frame of `dt` milliseconds.
    pub open spec fn step_spec(self, dt: u64) -> u64 {
        match self.fix_dt_for_test {
            Some(fixed) => fixed,
            None => if dt < MAX_MILLIS_ALLOWED_FOR_SINGLE_FRAME {
                dt
            } else {
                MAX_MILLIS_ALLOWED_FOR_SINGLE_FRAME
            },
        }
    }

    /// Advances one tick by a frame of `dt` milliseconds, clamped to the
    /// longest allowed step (or by the fixed step, when one is set).
    pub fn update_timers(&mut self, dt: u64)
        requires
            old(self).tick < u64::MAX,
            old(self).time.0 + old(self).step_spec(dt) <= i64::MAX,
        ensures
            final(self).tick == old(self).tick + 1,
            final(self).dt == old(self).step_spec(dt),
            final(self).time.0 == old(self).time.0 + old(self).step_spec(dt),
            final(self).fix_dt_for_test == old(self).fix_dt_for_test,
    {
        let step = match self.fix_dt_for_test {
            Some(fixed) => fixed,
            None => if dt < MAX_MILLIS_ALLOWED_FOR_SINGLE_FRAME {
                dt
            } else {
                MAX_MILLIS_ALLOWED_FOR_SINGLE_FRAME
            },
        };
        self.tick = self.tick + 1;
        self.dt = step;
        self.time = ElapsedTime((self.time.0 as i128 + step as i128) as i64);
    }

    /// Advances one tick by exactly the nominal step.
    pub fn update_timers_for_prediction(&mut self)
        requires
            old(self).tick < u64::MAX,
            old(self).time.0 + MAX_MILLIS_ALLOWED_FOR_SINGLE_FRAME <= i64::MAX,
        ensures
            final(self).tick == old(self).tick + 1,
            final(self).dt == MAX_MILLIS_ALLOWED_FOR_SINGLE_FRAME,
            final(self).time.0 == old(self).time.0 + MAX_MILLIS_ALLOWED_FOR_SINGLE_FRAME,
            final(self).fix_dt_for_test == old(self).fix_dt_for_test,
    {
        let step = MAX_MILLIS_ALLOWED_FOR_SINGLE_FRAME;
        self.tick = self.tick + 1;
        self.dt = step;
        self.time = ElapsedTime(self.time.0 + step as i64);
    }

    pub fn now(&self) -> (r: ElapsedTime)
        ensures
            r == self.time,
    {
        self.time
    }

    /// Milliseconds the previous step took.
    pub fn dt(&self) -> (r: u64)
        ensures
            r == self.dt,
    {
        self.dt
    }

    /// The clock as it would read at the earlier `tick`, assuming every step
    /// in between took the nominal length. The clock itself is not changed.
    pub fn reverted_to(&self, tick: u64) -> (r: EngineTime)
        requires
            tick <= self.tick,
            self.time.0 - (self.tick - tick) * MAX_MILLIS_ALLOWED_FOR_SINGLE_FRAME >= i64::MIN,
        ensures
            r.tick == tick,
            r.time.0 == self.time.0 - (self.tick - tick) * MAX_MILLIS_ALLOWED_FOR_SINGLE_FRAME,
            r.dt == self.dt,
            r.fix_dt_for_test == self.fix_dt_for_test,
    {
        let steps = self.tick - tick;
        let back: i128 = steps as i128 * MAX_MILLIS_ALLOWED_FOR_SINGLE_FRAME as i128;
        let time = self.time.0 as i128 - back;
        EngineTime { tick, time: ElapsedTime(time as i64), ..*self }
    }
}

} // verus!
