use vstd::prelude::*;

verus! {

/// Relies on uuid::Uuid::new_v4 (random v4 identifier) and Uuid::as_u128:
/// a fresh identifier as its 128-bit value. Nothing is known of the value.
#[verifier::external_body]
pub fn fresh_id() -> (id: u128) {
    uuid::Uuid::new_v4().as_u128()
}

/// Relies on chrono::Utc::now and DateTime::timestamp_millis: the wall-clock
/// time in milliseconds since the Unix epoch. Nothing is known of the value.
#[verifier::external_body]
pub fn now_millis() -> (t: i64) {
    chrono::Utc::now().timestamp_millis()
}

} // verus!
