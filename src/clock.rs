use vstd::prelude::*;

use crate::model::Timestamp;

verus! {

/// Relies on chrono::Utc::now and on DateTime::timestamp and
/// DateTime::timestamp_subsec_nanos: the current time, taken from the system
/// clock as a duration since the Unix epoch, so never before it and with a
/// sub-second part under one second. (chrono panics if the system clock reads
/// a time before the epoch.)
#[verifier::external_body]
pub(crate) fn current_time() -> (r: Timestamp)
    ensures
        r.seconds >= 0,
        r.nanos < 1_000_000_000,
{
    let now = chrono::Utc::now();
    Timestamp { seconds: now.timestamp(), nanos: now.timestamp_subsec_nanos() }
}

} // verus!
