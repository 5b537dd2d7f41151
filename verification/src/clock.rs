//! Wall-clock readings. Time is outside the program; nothing can be
//! promised about the values these return, so callers state what holds of
//! every reading.

use vstd::prelude::*;

verus! {

/// Relies on chrono's `Utc::now` for the current wall-clock time as
/// seconds since the epoch. `Utc::now` panics if the system clock reads
/// before the epoch, a state the platform's clock interfaces do not
/// produce.
#[verifier::external_body]
pub fn now_timestamp() -> i64 {
    chrono::Utc::now().timestamp()
}

/// Relies on chrono's `Utc::now` for the current wall-clock time as
/// milliseconds since the epoch; the same epoch note applies.
#[verifier::external_body]
pub fn now_millis() -> i64 {
    chrono::Utc::now().timestamp_millis()
}

} // verus!
