//! What the machine supplies: the wall clock and fresh identifiers.
//!
//! Nothing is promised of any of these values. The functions that use them state
//! what holds for every value they may return.

use vstd::prelude::*;

verus! {

/// The wall clock as the registry of outstanding runs reads it, in
/// milliseconds since the Unix epoch.
///
/// Calls `chrono::Utc::now` and reads the result with
/// `chrono::DateTime::timestamp_millis`. The reading depends on the
/// machine's clock, so no `ensures` clause says anything about it. Chrono
/// panics on a clock that is set before 1970.
#[verifier::external_body]
pub(crate) fn utc_now_millis() -> i64 {
    chrono::Utc::now().timestamp_millis()
}

/// The wall clock as documents are stamped with it, in milliseconds since
/// the Unix epoch.
///
/// Calls `mongodb::bson::DateTime::now` and reads the result with
/// `timestamp_millis`. The reading depends on the machine's clock, so no
/// `ensures` clause says anything about it.
#[verifier::external_body]
pub(crate) fn now_millis() -> i64 {
    mongodb::bson::DateTime::now().timestamp_millis()
}

/// An identifier for a new run.
///
/// Calls `mongodb::bson::uuid::Uuid::new`, which draws a random version 4
/// UUID, and renders it with its `Display` impl. The text is random, so no
/// `ensures` clause says anything about it.
#[verifier::external_body]
pub(crate) fn fresh_run_id() -> String {
    mongodb::bson::uuid::Uuid::new().to_string()
}

} // verus!
