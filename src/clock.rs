use vstd::prelude::*;

verus! {

/// Number of nanoseconds in one second.
pub const NANOS_PER_SEC: u32 = 1_000_000_000;

/// A UTC instant: whole seconds since the Unix epoch and the nanoseconds
/// within that second.
#[derive(Clone, Copy, Debug, PartialEq, Eq, Structural)]
pub struct Timestamp {
    pub secs: i64,
    pub nanos: u32,
}

impl Timestamp {
    /// The sub-second part is below one second.
    pub open spec fn wf(self) -> bool {
        self.nanos < NANOS_PER_SEC
    }
}

/// The current UTC time.
///
/// Relies on `chrono::Utc::now`, which builds its value from
/// `DateTime::from_timestamp(secs, subsec_nanos)` with a sub-second part
/// below one second, and on `timestamp` / `timestamp_subsec_nanos` reading
/// those two parts back. The call panics if the system clock is set before
/// the Unix epoch.
#[verifier::external_body]
pub(crate) fn now() -> (r: Timestamp)
    ensures
        r.wf(),
{
    let t = chrono::Utc::now();
    Timestamp { secs: t.timestamp(), nanos: t.timestamp_subsec_nanos() }
}

} // verus!
