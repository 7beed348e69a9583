//! The wall clock and fresh identifiers.

use vstd::prelude::*;

verus! {

/// The current time, in microseconds since the Unix epoch, as
/// `chrono::Utc::now().timestamp_micros()` reads it. Nothing is promised of
/// the value: it depends on the machine's clock. (`Utc::now` panics on a clock
/// set before 1970.)
#[verifier::external_body]
pub(crate) fn now_micros() -> i64 {
    chrono::Utc::now().timestamp_micros()
}

} // verus!

verus! {

/// A fresh random (version 4) UUID, as `uuid::Uuid::new_v4()` makes it, given
/// as its 128-bit value. Nothing is promised of the value: it is random.
/// (`new_v4` panics where the system's random source fails.)
#[verifier::external_body]
pub(crate) fn new_id() -> u128 {
    uuid::Uuid::new_v4().as_u128()
}

} // verus!
