//! The wall clock.

use vstd::prelude::*;

verus! {

/// The current time in milliseconds since the Unix epoch: the reading of
/// `std::time::SystemTime::now`, turned into a `chrono::DateTime<Utc>` and
/// asked for its `timestamp_millis`.
///
/// Nothing is claimed of the value: two readings may differ in either
/// direction. No time zone is looked up, and a clock that stands before 1970
/// gives a negative count. `chrono` covers every instant within some 262 000
/// years on either side of the epoch.
#[verifier::external_body]
pub(crate) fn now_millis() -> i64 {
    chrono::DateTime::<chrono::Utc>::from(std::time::SystemTime::now()).timestamp_millis()
}

} // verus!
