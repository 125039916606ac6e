//! The time at which a signal is generated.

use vstd::prelude::*;

verus! {

/// `chrono::Utc::now`, as milliseconds since the Unix epoch
/// (`DateTime::timestamp_millis`). Nothing is promised of the value: it is
/// whatever the system clock says.
#[verifier::external_body]
pub(crate) fn now_millis() -> i64 {
    chrono::Utc::now().timestamp_millis()
}

} // verus!
