//! The current time and fresh identifiers: what the library asks of the
//! machine it runs on.

use vstd::prelude::*;

verus! {

/// The current time in microseconds since the Unix epoch, from
/// `chrono::Utc::now()` and `DateTime::timestamp_micros`. Nothing is claimed
/// of the value: two calls may even go backwards. `Utc::now` panics on a
/// machine whose clock stands before the Unix epoch.
#[verifier::external_body]
pub(crate) fn now_micros() -> i64 {
    chrono::Utc::now().timestamp_micros()
}

/// A random identifier from `uuid::Uuid::new_v4`, in its hyphenated text
/// form. Nothing is claimed of the value, not even that it is new.
#[verifier::external_body]
pub(crate) fn fresh_id() -> String {
    uuid::Uuid::new_v4().to_string()
}

} // verus!
