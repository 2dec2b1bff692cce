//! Identifiers and wall-clock time.
use vstd::prelude::*;

verus! {

#[verifier::external_type_specification]
#[verifier::external_body]
pub struct ExInstant(std::time::Instant);

/// The current instant of the monotonic clock.
///
/// Trusted: `std::time::Instant::now`; nothing is claimed of the value.
#[verifier::external_body]
pub(crate) fn instant_now() -> (r: std::time::Instant) {
    std::time::Instant::now()
}

/// Milliseconds elapsed since `start`.
///
/// Trusted: `Instant::elapsed` and `Duration::as_millis` of std; nothing is
/// claimed of the number, which depends on the clock.
#[verifier::external_body]
pub(crate) fn millis_since(start: &std::time::Instant) -> (r: u128) {
    start.elapsed().as_millis()
}

/// Whole seconds elapsed since `start`.
///
/// Trusted: `Instant::elapsed` and `Duration::as_secs` of std; nothing is
/// claimed of the number, which depends on the clock.
#[verifier::external_body]
pub(crate) fn secs_since(start: &std::time::Instant) -> (r: u64) {
    start.elapsed().as_secs()
}

/// A fresh random identifier (a version 4 UUID as a 128-bit number).
///
/// Trusted: `uuid::Uuid::new_v4` and `Uuid::as_u128` of the uuid crate;
/// nothing is claimed of the value, which is random.
#[verifier::external_body]
pub(crate) fn new_id() -> (r: u128) {
    uuid::Uuid::new_v4().as_u128()
}

/// The current UTC time in milliseconds since the Unix epoch.
///
/// Trusted: `chrono::Utc::now` and `DateTime::timestamp_millis` of the chrono
/// crate; nothing is claimed of the value, which depends on the clock.
#[verifier::external_body]
pub(crate) fn now_millis() -> (r: i64) {
    chrono::Utc::now().timestamp_millis()
}

} // verus!
