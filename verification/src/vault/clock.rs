//! Points in time and the rule that decides whether a lease is still running.
//!
//! Time is counted from the Unix epoch in whole seconds and nanoseconds. The
//! library never reads a clock: every operation that depends on the time takes
//! the current moment as an argument.

use vstd::prelude::*;

verus! {

/// Nanoseconds in one second.
pub const NANOS_PER_SEC: u128 = 1_000_000_000;

/// A point in time: `secs` whole seconds and `nanos` further nanoseconds
/// after the Unix epoch.
#[derive(Clone, Copy, Debug, PartialEq, Eq, Structural)]
pub struct Timestamp {
    pub secs: u64,
    pub nanos: u32,
}

impl Timestamp {
    /// The nanoseconds between the epoch and this point in time.
    pub open spec fn total_nanos(self) -> int {
        self.secs as int * 1_000_000_000 + self.nanos as int
    }

    /// A point in time `secs` whole seconds after the epoch.
    pub fn from_secs(secs: u64) -> (t: Timestamp)
        ensures
            t.secs == secs,
            t.nanos == 0,
            t.total_nanos() == secs as int * 1_000_000_000,
    {
        Timestamp { secs, nanos: 0 }
    }

    /// The nanoseconds between the epoch and this point in time.
    pub fn as_nanos(&self) -> (n: u128)
        ensures
            n as int == self.total_nanos(),
    {
        self.secs as u128 * NANOS_PER_SEC + self.nanos as u128
    }
}

/// A lease of `ttl_seconds` that began at `start` is live at `now` exactly
/// when less than `ttl_seconds` have passed since `start`. A `now` that lies
/// before `start` counts as no time passed.
pub open spec fn lease_live(start: Timestamp, ttl_seconds: u64, now: Timestamp) -> bool {
    now.total_nanos() - start.total_nanos() < ttl_seconds as int * 1_000_000_000
}

/// A lease is overdue at `now` when more than `ttl_seconds` have passed since
/// `start`: its age exceeds its time to live, by however little.
pub open spec fn lease_overdue(start: Timestamp, ttl_seconds: u64, now: Timestamp) -> bool {
    now.total_nanos() - start.total_nanos() > ttl_seconds as int * 1_000_000_000
}

/// Decides [`lease_live`].
pub fn is_live(start: Timestamp, ttl_seconds: u64, now: Timestamp) -> (live: bool)
    ensures
        live == lease_live(start, ttl_seconds, now),
{
    let deadline: u128 = start.as_nanos() + ttl_seconds as u128 * NANOS_PER_SEC;
    now.as_nanos() < deadline
}

/// Decides [`lease_overdue`].
pub fn is_overdue(start: Timestamp, ttl_seconds: u64, now: Timestamp) -> (overdue: bool)
    ensures
        overdue == lease_overdue(start, ttl_seconds, now),
{
    let deadline: u128 = start.as_nanos() + ttl_seconds as u128 * NANOS_PER_SEC;
    now.as_nanos() > deadline
}

} // verus!
