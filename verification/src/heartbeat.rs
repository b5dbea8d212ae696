//! The keep-alive timer: when the last keep-alive went out, how often one
//! is due, and whether one is due now.
//!
//! What the clock says is not known here; what is decided from a reading
//! of it is verified.

use crate::clock::{
    clock_elapsed, clock_now, duration_nanos, nanos_of, span_minus, whole_seconds,
};
use std::time::{Duration, Instant};
use vstd::prelude::*;

verus! {

/// Whether a keep-alive is due once `elapsed` has gone by since the last
/// one, at one keep-alive per `interval`.
pub open spec fn due_after(elapsed: Duration, interval: Duration) -> bool {
    duration_nanos(elapsed) >= duration_nanos(interval)
}

/// Nanoseconds left until the next keep-alive is due; none once it is due.
pub open spec fn nanos_until_due(elapsed: Duration, interval: Duration) -> nat {
    if due_after(elapsed, interval) {
        0
    } else {
        (duration_nanos(interval) - duration_nanos(elapsed)) as nat
    }
}

/// Decides whether a keep-alive is due `elapsed` after the last one.
pub fn heartbeat_due(elapsed: Duration, interval: Duration) -> (due: bool)
    ensures
        due == due_after(elapsed, interval),
{
    nanos_of(&elapsed) >= nanos_of(&interval)
}

/// The time left until the next keep-alive is due, `elapsed` after the last
/// one.
pub fn time_until_due(elapsed: Duration, interval: Duration) -> (left: Duration)
    ensures
        duration_nanos(left) == nanos_until_due(elapsed, interval),
{
    if heartbeat_due(elapsed, interval) {
        whole_seconds(0)
    } else {
        span_minus(interval, elapsed)
    }
}

/// Tracks when the last keep-alive was sent and how often one is due.
pub struct HeartbeatManager {
    last_heartbeat_time: Instant,
    heartbeat_interval: Duration,
}

impl HeartbeatManager {
    /// The configured interval.
    pub closed spec fn interval(&self) -> Duration {
        self.heartbeat_interval
    }

    /// The clock reading at which the last keep-alive was recorded.
    pub closed spec fn last_sent(&self) -> Instant {
        self.last_heartbeat_time
    }

    /// A timer whose last keep-alive counts as sent now.
    pub fn new(heartbeat_interval: Duration) -> (manager: HeartbeatManager)
        ensures
            manager.interval() == heartbeat_interval,
    {
        HeartbeatManager { last_heartbeat_time: clock_now(), heartbeat_interval }
    }

    /// Whether at least the interval has gone by since the last keep-alive.
    /// What the clock says is not known here; with an interval of no time
    /// the answer is yes whatever it says.
    pub fn is_heartbeat_needed(&self) -> (needed: bool)
        ensures
            duration_nanos(self.interval()) == 0 ==> needed,
    {
        heartbeat_due(clock_elapsed(&self.last_heartbeat_time), self.heartbeat_interval)
    }

    /// Records that a keep-alive went out now.
    pub fn record_heartbeat_sent(&mut self)
        ensures
            final(self).interval() == old(self).interval(),
    {
        self.record_heartbeat_sent_at(clock_now());
    }

    /// The time gone by since the last keep-alive.
    pub fn time_since_last_heartbeat(&self) -> Duration {
        clock_elapsed(&self.last_heartbeat_time)
    }

    /// The configured interval.
    pub fn heartbeat_interval(&self) -> (interval: Duration)
        ensures
            interval == self.interval(),
    {
        self.heartbeat_interval
    }

    /// Sets the interval and leaves the time of the last keep-alive as it
    /// is.
    pub fn update_interval(&mut self, new_interval: Duration)
        ensures
            final(self).interval() == new_interval,
            final(self).last_sent() == old(self).last_sent(),
    {
        self.heartbeat_interval = new_interval;
    }

    /// The time left until a keep-alive is due: never more than the
    /// interval, and none with an interval of no time.
    pub fn time_until_next_heartbeat(&self) -> (left: Duration)
        ensures
            duration_nanos(left) <= duration_nanos(self.interval()),
    {
        let elapsed = self.time_since_last_heartbeat();
        time_until_due(elapsed, self.heartbeat_interval)
    }

    /// Records that a keep-alive went out at the clock reading `sent_at`,
    /// and leaves the interval as it is.
    pub fn record_heartbeat_sent_at(&mut self, sent_at: Instant)
        ensures
            final(self).last_sent() == sent_at,
            final(self).interval() == old(self).interval(),
    {
        self.last_heartbeat_time = sent_at;
    }
}

} // verus!
