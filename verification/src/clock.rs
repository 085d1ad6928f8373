//! The time of day.

use vstd::prelude::*;

verus! {

/// `std::time::SystemTime::elapsed` of the Unix epoch, in whole seconds; nothing where the
/// system's clock stands before the epoch. The value is the machine's, and nothing is
/// claimed of it.
#[verifier::external_body]
fn seconds_since_epoch() -> (r: Option<u64>) {
    std::time::UNIX_EPOCH.elapsed().ok().map(|d| d.as_secs())
}

/// The number of seconds since the Unix epoch, where it can be counted.
pub fn counted_seconds(seconds: Option<u64>) -> (r: Option<i64>)
    ensures
        match r {
            Some(now) => seconds == Some(now as u64) && 0 <= now,
            None => seconds is None || seconds->0 > i64::MAX,
        },
{
    match seconds {
        Some(seconds) => if seconds <= i64::MAX as u64 {
            Some(seconds as i64)
        } else {
            None
        },
        None => None,
    }
}

/// The seconds since the Unix epoch; nothing where the system's clock stands before it or
/// too far ahead to be counted.
pub fn now_unix() -> (r: Option<i64>)
    ensures
        r matches Some(now) ==> 0 <= now,
{
    counted_seconds(seconds_since_epoch())
}

} // verus!
