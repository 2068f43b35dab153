//! Process-wide status state: the count of active UI sessions and the
//! monotonic start instant that uptime is measured from.

use vstd::prelude::*;

verus! {

/// The monotonic clock's reading type, opaque to the logic; a value of
/// it only ever flows from [`instant_now`] into [`elapsed_whole_secs`].
#[verifier::external_type_specification]
#[verifier::external_body]
pub struct ExInstant(std::time::Instant);

/// A reading of the monotonic clock.
///
/// Relies on `std::time::Instant::now`. The reading depends on the
/// machine, so nothing is promised of it.
#[verifier::external_body]
fn instant_now() -> (r: std::time::Instant) {
    std::time::Instant::now()
}

/// Whole seconds since `start` was read.
///
/// Relies on `std::time::Instant::elapsed`, which measures against the
/// monotonic clock and yields zero rather than failing when the
/// instants compare backwards, and on `Duration::as_secs` to convert.
/// The value depends on the moment of the call, so no contract relates
/// two readings; the caller keeps its own high-water mark.
#[verifier::external_body]
fn elapsed_whole_secs(start: &std::time::Instant) -> (r: u64) {
    start.elapsed().as_secs()
}

/// Shared status of the running process: when it started and how many
/// UI sessions are currently registered.
///
/// The session count never goes below zero: unregistering at zero is a
/// no-op rather than an underflow. Reported uptime never decreases:
/// each reading is floored at the previous one.
pub struct SystemState {
    /// Monotonic clock reading captured at construction.
    pub start: std::time::Instant,
    /// The uptime most recently reported, a high-water mark that makes
    /// successive readings non-decreasing.
    pub last_reported_uptime: u64,
    /// Number of currently registered UI sessions.
    pub active_connections: usize,
}

impl SystemState {
    /// Captures the start instant and begins with no registered
    /// sessions and no uptime reported yet.
    pub fn new() -> (r: SystemState)
        ensures
            r.active_connections == 0,
            r.last_reported_uptime == 0,
    {
        SystemState { start: instant_now(), last_reported_uptime: 0, active_connections: 0 }
    }

    /// Records one more active session.
    pub fn increment_connections(&mut self)
        requires
            old(self).active_connections < usize::MAX,
        ensures
            final(self).active_connections == old(self).active_connections + 1,
            final(self).last_reported_uptime == old(self).last_reported_uptime,
    {
        self.active_connections = self.active_connections + 1;
    }

    /// Records that a session ended. At zero the count stays zero: the
    /// floor is part of the contract, not an error.
    pub fn decrement_connections(&mut self)
        ensures
            final(self).active_connections == if old(self).active_connections > 0 {
                (old(self).active_connections - 1) as usize
            } else {
                0usize
            },
            final(self).last_reported_uptime == old(self).last_reported_uptime,
    {
        if self.active_connections > 0 {
            self.active_connections = self.active_connections - 1;
        }
    }

    /// The number of currently registered sessions.
    pub fn get_connections(&self) -> (r: usize)
        ensures
            r == self.active_connections,
    {
        self.active_connections
    }

    /// Whole seconds since construction, read from the monotonic clock
    /// and floored at the previous reading, so reported uptime never
    /// goes backwards whatever the platform's clock does.
    pub fn get_uptime(&mut self) -> (r: u64)
        ensures
            r >= old(self).last_reported_uptime,
            final(self).last_reported_uptime == r,
            final(self).active_connections == old(self).active_connections,
    {
        let elapsed = elapsed_whole_secs(&self.start);
        if elapsed > self.last_reported_uptime {
            self.last_reported_uptime = elapsed;
        }
        self.last_reported_uptime
    }
}

/// Unregistering at a zero count leaves the count at zero: the session
/// counter never goes negative however the calls interleave.
pub proof fn lemma_counter_floor(s1: SystemState, s2: SystemState)
    requires
        s1.active_connections == 0,
        s2.active_connections == if s1.active_connections > 0 {
            (s1.active_connections - 1) as usize
        } else {
            0usize
        },
    ensures
        s2.active_connections == 0,
{
}

/// Reported uptime is non-decreasing: of two successive readings on
/// the same state, the second is at least the first.
pub proof fn lemma_uptime_monotonic(
    s0: SystemState,
    s1: SystemState,
    r1: u64,
    s2: SystemState,
    r2: u64,
)
    requires
        // the first reading's contract...
        r1 >= s0.last_reported_uptime && s1.last_reported_uptime == r1,
        // ...and the second's, on the state the first left behind.
        r2 >= s1.last_reported_uptime && s2.last_reported_uptime == r2,
    ensures
        r2 >= r1,
{
}

} // verus!
