//! The two ambient inputs of the core: a fresh random identifier and the
//! current wall-clock time. Both come from outside crates.

use vstd::prelude::*;

verus! {

/// Relies on `uuid::Uuid::new_v4` (a random version-4 UUID) and
/// `uuid::Uuid::as_u128` (its 128 bits, big-endian). The value is random;
/// only its version field, which `new_v4` sets to 4, is fixed. `new_v4`
/// panics if the operating system yields no random bytes.
#[verifier::external_body]
pub(crate) fn fresh_identifier() -> (r: u128)
    ensures
        (r >> 76u128) & 0xfu128 == 4,
{
    uuid::Uuid::new_v4().as_u128()
}

/// Relies on `chrono::Utc::now` (the system time, measured from the Unix
/// epoch) and `DateTime::timestamp_micros`. The time is measured from the
/// epoch, so it is never negative. `Utc::now` panics if the system clock
/// reads before 1970.
#[verifier::external_body]
pub(crate) fn now_micros() -> (r: i64)
    ensures
        r >= 0,
{
    chrono::Utc::now().timestamp_micros()
}

} // verus!
