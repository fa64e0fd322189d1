//! Process-wide reconciler state and metrics, modelled as plain values.
//!
//! One `State` and one `Metrics` live per controller process; every
//! reconciliation pass stamps the event time, and every successful pass
//! bumps the counters and observes its duration.  Their exposure over HTTP
//! is left to the surrounding process.
use vstd::prelude::*;

verus! {

/// Relies on chrono's `Utc::now` and `timestamp_millis`: the current wall
/// clock as milliseconds since the Unix epoch.  Nothing is promised of the
/// value: the clock may move arbitrarily between calls.
#[verifier::external_body]
pub(crate) fn now_unix_millis() -> (t: i64) {
    chrono::Utc::now().timestamp_millis()
}

/// In-memory reconciler state: the last handled event's timestamp and the
/// identity this controller reports events under.
#[derive(Debug, Clone, PartialEq, Eq)]
pub struct State {
    /// Milliseconds since the Unix epoch at the last handled event.
    pub last_event_millis: i64,
    /// Reporter identity for events emitted by this controller.
    pub reporter: String,
}

impl State {
    /// Initializes the state at controller startup, stamped with the
    /// caller's clock reading.
    pub fn new(now_millis: i64) -> (s: State)
        ensures
            s.last_event_millis == now_millis,
            s.reporter@ == "engula-operator"@,
    {
        State { last_event_millis: now_millis, reporter: "engula-operator".to_owned() }
    }

    /// Stamps the given clock reading as the last handled event.  The
    /// reporter identity never changes over the life of the process.
    pub fn record_event(&mut self, now_millis: i64)
        ensures
            final(self).last_event_millis == now_millis,
            final(self).reporter == old(self).reporter,
    {
        self.last_event_millis = now_millis;
    }
}

/// Monotonic reconciliation metrics: an event counter and the observation
/// count and running sum of pass durations, kept in milliseconds.
#[derive(Debug, Clone, PartialEq, Eq)]
pub struct Metrics {
    pub handled_events: u64,
    pub duration_count: u64,
    pub duration_sum_millis: u64,
}

impl Metrics {
    /// A fresh registry: every counter at zero.
    pub fn new() -> (m: Metrics)
        ensures
            m.handled_events == 0,
            m.duration_count == 0,
            m.duration_sum_millis == 0,
    {
        Metrics { handled_events: 0, duration_count: 0, duration_sum_millis: 0 }
    }

    /// Counts one handled event.
    pub fn inc_handled_events(&mut self)
        requires
            old(self).handled_events < u64::MAX,
        ensures
            final(self).handled_events == old(self).handled_events + 1,
            final(self).duration_count == old(self).duration_count,
            final(self).duration_sum_millis == old(self).duration_sum_millis,
    {
        self.handled_events = self.handled_events + 1;
    }

    /// Observes the duration of one reconciliation pass.  The running sum
    /// saturates rather than wrap: the counters are monotonic and never
    /// reset within a process.
    pub fn observe_duration(&mut self, millis: u64)
        requires
            old(self).duration_count < u64::MAX,
        ensures
            final(self).handled_events == old(self).handled_events,
            final(self).duration_count == old(self).duration_count + 1,
            final(self).duration_sum_millis == (
                if old(self).duration_sum_millis + millis <= u64::MAX {
                    old(self).duration_sum_millis + millis
                } else {
                    u64::MAX as int
                }
            ),
    {
        self.duration_count = self.duration_count + 1;
        self.duration_sum_millis = if millis <= u64::MAX - self.duration_sum_millis {
            self.duration_sum_millis + millis
        } else {
            u64::MAX
        };
    }
}

} // verus!
