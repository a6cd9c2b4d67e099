//! The clock and the drawing of identifiers.
//!
//! What these functions return differs from call to call, so nothing is
//! claimed of it. Every function that calls one of them has a twin that
//! takes the value as an argument, and says exactly what it does with it.
use vstd::prelude::*;

verus! {

/// `chrono::Utc::now`, written by `DateTime::to_rfc3339`: the time of the
/// call as text.
#[verifier::external_body]
pub(crate) fn timestamp_now() -> (r: String) {
    chrono::Utc::now().to_rfc3339()
}

/// `chrono::Utc::now`, read by `DateTime::timestamp`: the time of the call
/// in seconds since the epoch.
#[verifier::external_body]
pub(crate) fn seconds_now() -> (r: i64) {
    chrono::Utc::now().timestamp()
}

/// `chrono::Utc::now`, read by `DateTime::timestamp_millis`: the time of
/// the call in milliseconds since the epoch.
#[verifier::external_body]
pub(crate) fn milliseconds_now() -> (r: u64) {
    chrono::Utc::now().timestamp_millis() as u64
}

/// `uuid::Uuid::new_v4`, written as text: a random identifier.
#[verifier::external_body]
pub(crate) fn fresh_id() -> (r: String) {
    uuid::Uuid::new_v4().to_string()
}

} // verus!
