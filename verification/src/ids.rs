//! Fresh identifiers and the clock, from the outside world.
use vstd::prelude::*;

verus! {

/// Relies on `uuid::Uuid::new_v4` (via `as_u128`): a freshly drawn random
/// 128-bit identifier.  Nothing is promised of the value.
#[verifier::external_body]
pub fn fresh_id() -> u128 {
    uuid::Uuid::new_v4().as_u128()
}

/// Relies on `chrono::Utc::now` (via `timestamp_millis`): the wall clock,
/// as milliseconds since the epoch.  Nothing is promised of the value.
#[verifier::external_body]
pub fn now_millis() -> i64 {
    chrono::Utc::now().timestamp_millis()
}

} // verus!
