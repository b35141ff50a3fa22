//! The wall clock, as the snapshot timestamps use it.

use vstd::prelude::*;

verus! {

/// Relies on chrono's `Utc::now` and `timestamp_millis`: the wall-clock time
/// in milliseconds since the Unix epoch.  The value depends on the clock, so
/// nothing is promised of it.
#[verifier::external_body]
fn utc_now_millis() -> i64 {
    chrono::Utc::now().timestamp_millis()
}

/// The current time in whole milliseconds since the Unix epoch, as the
/// unsigned value the wire format carries; a clock before the epoch reads as
/// zero.
pub fn now_millis() -> u64 {
    let t = utc_now_millis();
    if t < 0 {
        0
    } else {
        t as u64
    }
}

} // verus!
