use vstd::prelude::*;

verus! {

/// Milliseconds since the Unix epoch, from `chrono::Utc::now()` followed by
/// `DateTime::timestamp_millis`. The value depends on the time of the call,
/// so nothing is promised of it.
#[verifier::external_body]
pub(crate) fn now_millis() -> i64 {
    chrono::Utc::now().timestamp_millis()
}

} // verus!
