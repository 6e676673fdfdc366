//! The wall clock, read through `chrono`.

use vstd::prelude::*;
use crate::masked::Timestamp;

verus! {

/// Reads the system clock and converts the reading with `chrono`'s
/// `From<SystemTime> for DateTime<Utc>`, then hands it back as the seconds
/// and nanoseconds that `DateTime::timestamp` and
/// `DateTime::timestamp_subsec_nanos` give for it.
///
/// Trusted: the conversion takes a reading on either side of the Unix epoch
/// and keeps its sub-second part below one second, so no leap-second value
/// comes back; a reading before the epoch gives negative seconds. Nothing
/// else is claimed: two readings may differ in any way.
#[verifier::external_body]
pub(crate) fn now_utc() -> (t: Timestamp)
    ensures
        t.nanos < 1_000_000_000,
{
    let now = chrono::DateTime::<chrono::Utc>::from(std::time::SystemTime::now());
    Timestamp { secs: now.timestamp(), nanos: now.timestamp_subsec_nanos() }
}

} // verus!
