//! The scheduling class held for the span of one drop.
//!
//! While a motor is energized the controlling process runs in a fixed-priority
//! class, so that the waits of a drop are not stretched by best-effort work.
//! This module decides which class is asked of the operating system and reads
//! its answer; the request itself is made by the driver.

use vstd::prelude::*;

verus! {

/// Priority asked for while a motor is active.
pub const REALTIME_PRIORITY: i32 = 10;

/// Priority of the default, time-shared class.
pub const DEFAULT_PRIORITY: i32 = 0;

/// What the operating system returns when it refuses a scheduling request.
pub const SCHED_FAILURE: i32 = -1;

/// A scheduling policy of the operating system.
#[derive(Clone, Copy, PartialEq, Eq, Debug, Structural)]
pub enum SchedPolicy {
    /// Time-shared, best effort.
    Other,
    /// Fixed priority, first in first out.
    Fifo,
}

/// A scheduling class: a policy and a priority within it.
#[derive(Clone, Copy, PartialEq, Eq, Debug, Structural)]
pub struct SchedClass {
    pub policy: SchedPolicy,
    pub priority: i32,
}

impl SchedClass {
    /// The class every process starts in.
    pub open spec fn spec_time_shared() -> SchedClass {
        SchedClass { policy: SchedPolicy::Other, priority: DEFAULT_PRIORITY }
    }

    /// The class held while a motor is active.
    pub open spec fn spec_realtime() -> SchedClass {
        SchedClass { policy: SchedPolicy::Fifo, priority: REALTIME_PRIORITY }
    }

    /// The class that `real_time` selects.
    pub open spec fn spec_select(real_time: bool) -> SchedClass {
        if real_time {
            Self::spec_realtime()
        } else {
            Self::spec_time_shared()
        }
    }

    /// The class every process starts in: time-shared, priority 0.
    pub fn time_shared() -> (class: SchedClass)
        ensures
            class == Self::spec_time_shared(),
    {
        SchedClass { policy: SchedPolicy::Other, priority: DEFAULT_PRIORITY }
    }

    /// The class held while a motor is active: first in first out, priority 10.
    pub fn realtime() -> (class: SchedClass)
        ensures
            class == Self::spec_realtime(),
    {
        SchedClass { policy: SchedPolicy::Fifo, priority: REALTIME_PRIORITY }
    }
}

/// The elevation of the process's scheduling class for one drop.
///
/// A guard records the class that is in force on its account. It is made
/// elevated; the class to go back to when it ends is the time-shared one.
#[derive(Debug, PartialEq, Eq)]
pub struct RealtimeGuard {
    pub class: SchedClass,
}

impl Default for RealtimeGuard {
    /// A fresh guard holds the real-time class.
    fn default() -> (guard: Self)
        ensures
            guard.class == SchedClass::spec_realtime(),
    {
        RealtimeGuard { class: SchedClass::realtime() }
    }
}

impl RealtimeGuard {
    /// Selects the class to ask for, records it and returns it: the real-time
    /// class if `real_time`, the time-shared class otherwise.
    pub fn set_priority(&mut self, real_time: bool) -> (class: SchedClass)
        ensures
            class == SchedClass::spec_select(real_time),
            final(self).class == class,
    {
        let class = if real_time {
            SchedClass::realtime()
        } else {
            SchedClass::time_shared()
        };
        self.class = class;
        class
    }

    /// Whether the operating system refused a scheduling request, told from
    /// the status it returned: it refuses with -1 and nothing else.
    pub fn refused(status: i32) -> (failed: bool)
        ensures
            failed <==> status == SCHED_FAILURE,
    {
        status == SCHED_FAILURE
    }
}

} // verus!
