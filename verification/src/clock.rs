//! The wall clock.
use vstd::prelude::*;

verus! {

/// A moment: whole seconds since the Unix epoch and the nanoseconds past them.
#[derive(Clone, Copy, Debug, PartialEq, Eq, Structural)]
pub struct Timestamp {
    pub seconds: i64,
    pub nanos: u32,
}

impl Timestamp {
    /// The moment in nanoseconds since the Unix epoch.
    pub open spec fn total_nanos(self) -> int {
        self.seconds * 1_000_000_000 + self.nanos
    }

    /// The nanoseconds from `earlier` to this moment, negative where the clock went
    /// back.
    pub fn signed_nanos_since(self, earlier: Timestamp) -> (nanos: i128)
        ensures
            nanos == self.total_nanos() - earlier.total_nanos(),
    {
        let seconds: i128 = self.seconds as i128 - earlier.seconds as i128;
        seconds * 1_000_000_000 + (self.nanos as i128 - earlier.nanos as i128)
    }
}

/// Whether a moment can be read from the clock: it is not before the Unix epoch, and
/// its nanoseconds make up less than a second.
pub open spec fn is_reading(moment: Timestamp) -> bool {
    moment.seconds >= 0 && moment.nanos < 1_000_000_000
}

/// Reads the clock with `chrono::Local::now`: the seconds and nanoseconds since the
/// Unix epoch of a moment that is not before it and is no leap second. The call
/// panics where the system clock stands before the epoch.
#[verifier::external_body]
pub(crate) fn now() -> (moment: Timestamp)
    ensures
        is_reading(moment),
{
    let now = chrono::Local::now();
    Timestamp { seconds: now.timestamp(), nanos: now.timestamp_subsec_nanos() }
}

/// A moment counts its seconds and the nanoseconds past them.
pub proof fn moments_count_nanoseconds(moment: Timestamp)
    ensures
        moment.total_nanos() == moment.seconds * 1_000_000_000 + moment.nanos,
        is_reading(moment) <==> moment.seconds >= 0 && moment.nanos < 1_000_000_000,
{
}

} // verus!
