//! The one place the library reads the wall clock.

use vstd::prelude::*;

verus! {

/// Relies on `chrono::Utc::now`: the current wall-clock time as unix
/// milliseconds. Nothing can be promised of its value.
#[verifier::external_body]
pub fn now_millis() -> i64 {
    chrono::Utc::now().timestamp_millis()
}

} // verus!
