//! Instants in UTC, held as seconds and nanoseconds since the Unix epoch.

use vstd::prelude::*;

verus! {

/// An instant: whole seconds since the Unix epoch and the nanoseconds past
/// that second.
#[derive(Debug, Clone, Copy, PartialEq, Eq, Structural)]
pub struct Timestamp {
    pub secs: i64,
    pub nanos: u32,
}

impl Timestamp {
    /// The nanosecond part is under one second (no leap-second instants).
    pub open spec fn wf(self) -> bool {
        self.nanos < 1_000_000_000
    }

    /// The instant as a count of nanoseconds since the epoch.
    pub open spec fn total_nanos(self) -> int {
        self.secs * 1_000_000_000 + self.nanos
    }
}

/// Nanoseconds from `since` to `now` (negative when `now` is earlier).
pub open spec fn elapsed_nanos(now: Timestamp, since: Timestamp) -> int {
    now.total_nanos() - since.total_nanos()
}

/// Reads the clock through `chrono::Utc::now`. Claimed of the instant
/// returned: its second count is not negative and its nanosecond part is
/// under one second, as chrono builds it from `SystemTime::now()` measured
/// since the epoch (and panics on a clock set before the epoch, which this
/// contract cannot exclude). Nothing else is claimed: the instant is the time.
#[verifier::external_body]
pub(crate) fn utc_now() -> (t: Timestamp)
    ensures
        t.wf(),
        t.secs >= 0,
{
    let now = chrono::Utc::now();
    Timestamp { secs: now.timestamp(), nanos: now.timestamp_subsec_nanos() }
}

/// Whether more than `threshold_secs` seconds have passed from `since` to
/// `now`.
pub fn elapsed_exceeds(now: Timestamp, since: Timestamp, threshold_secs: i64) -> (r: bool)
    ensures
        r == (elapsed_nanos(now, since) > threshold_secs * 1_000_000_000),
{
    let secs: i128 = now.secs as i128 - since.secs as i128;
    let nanos: i128 = now.nanos as i128 - since.nanos as i128;
    let elapsed: i128 = secs * 1_000_000_000 + nanos;
    let limit: i128 = threshold_secs as i128 * 1_000_000_000;
    elapsed > limit
}

} // verus!
