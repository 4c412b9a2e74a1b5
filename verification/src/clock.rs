//! The time that records are stamped with.

use vstd::prelude::*;

verus! {

/// `DateTime::<Utc>::from` on the system's time, as milliseconds since the
/// epoch; negative where the clock stands before 1970. Nothing is claimed of
/// the value: it is whatever the machine's clock says.
#[verifier::external_body]
pub(crate) fn epoch_millis() -> i64 {
    chrono::DateTime::<chrono::Utc>::from(std::time::SystemTime::now()).timestamp_millis()
}

/// The stamp for a reading of the clock: the reading itself, and 0 for one
/// before the epoch.
pub open spec fn stamp(millis: i64) -> u64 {
    if millis < 0 {
        0
    } else {
        millis as u64
    }
}

/// The stamp for a reading of the clock.
pub fn stamp_of(millis: i64) -> (now: u64)
    ensures
        now == stamp(millis),
{
    if millis < 0 {
        0
    } else {
        millis as u64
    }
}

/// The stamp for the current time.
pub(crate) fn now_millis() -> u64 {
    stamp_of(epoch_millis())
}

} // verus!
