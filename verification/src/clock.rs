//! The wall clock.

use vstd::prelude::*;

verus! {

/// Reads the clock: `chrono::Utc::now`, as `DateTime::timestamp_millis`
/// counts it, in milliseconds since the Unix epoch. Nothing is claimed of
/// the result.
#[verifier::external_body]
pub(crate) fn now_millis() -> (timestamp: i64) {
    chrono::Utc::now().timestamp_millis()
}

} // verus!
