//! The wall clock, behind a trusted boundary.

use vstd::prelude::*;

verus! {

/// Relies on `chrono::Utc::now` and `DateTime::timestamp_millis`: the
/// current UTC time as milliseconds since the epoch. Nothing is promised
/// of the value; it depends on the wall clock.
#[verifier::external_body]
pub(crate) fn now_millis() -> i64 {
    chrono::Utc::now().timestamp_millis()
}

} // verus!
