//! Wall-clock access for receipt timestamps.

use vstd::prelude::*;

verus! {

/// Relies on std's `SystemTime::now` and chrono's `From<SystemTime>` and
/// `DateTime::timestamp_millis`: the current instant as milliseconds
/// since the Unix epoch (negative before it; the conversion handles a
/// pre-epoch clock without panicking, unlike `Utc::now`). Nothing is
/// assumed of the reading: callers are verified for every value.
#[verifier::external_body]
pub(crate) fn now_epoch_ms() -> i64 {
    chrono::DateTime::<chrono::Utc>::from(std::time::SystemTime::now()).timestamp_millis()
}

} // verus!
