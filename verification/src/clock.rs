//! The wall clock, behind one trusted call into the `time` crate.

use vstd::prelude::*;

verus! {

/// Relies on `time::OffsetDateTime::now_utc` and
/// `time::OffsetDateTime::unix_timestamp`: whole Unix seconds of the system
/// clock at the moment of the call. The value depends on the machine's
/// clock, so nothing is assumed of it.
#[verifier::external_body]
fn now_unix_raw() -> (t: i64) {
    time::OffsetDateTime::now_utc().unix_timestamp()
}

/// The current time as whole Unix seconds, clamped below at the epoch.
/// The raw reading is an `i64`, so the result never exceeds `i64::MAX`.
pub fn now_seconds() -> (t: u64)
    ensures
        t <= i64::MAX as u64,
{
    let raw = now_unix_raw();
    if raw < 0 {
        0
    } else {
        raw as u64
    }
}

} // verus!
