//! The monotonic clock by which the game measures time.

use std::time::{Duration, Instant};
use vstd::prelude::*;

verus! {

/// A reading of the monotonic clock. Nothing is known of its value.
#[verifier::external_type_specification]
#[verifier::external_body]
pub struct ExInstant(Instant);

/// `Instant::now` reads the clock. The reading differs from call to call,
/// so nothing is promised of it.
pub assume_specification[ Instant::now ]() -> (now: Instant);

/// `Instant::elapsed` is the time that has passed since a reading. It
/// depends on the moment of the call, so nothing is promised of it.
pub assume_specification[ Instant::elapsed ](since: &Instant) -> (passed: Duration);

/// `Duration::as_nanos` is the whole number of nanoseconds of a duration.
/// The duration is opaque here, so nothing is promised of the number.
pub assume_specification[ Duration::as_nanos ](duration: &Duration) -> (nanos: u128);

/// Nanoseconds in a millisecond.
pub const NANOS_PER_MILLI: u128 = 1_000_000;

/// Nanoseconds in a second.
pub const NANOS_PER_SEC: u128 = 1_000_000_000;

/// The time from `since` to `now`, both in nanoseconds on the same clock;
/// zero if `now` is the earlier one.
pub open spec fn elapsed(now: nat, since: nat) -> nat {
    if now >= since {
        (now - since) as nat
    } else {
        0
    }
}

/// The whole milliseconds from `since` to `now`.
pub open spec fn elapsed_millis(now: nat, since: nat) -> nat {
    elapsed(now, since) / (NANOS_PER_MILLI as nat)
}

/// The whole seconds from `since` to `now`.
pub open spec fn elapsed_secs(now: nat, since: nat) -> nat {
    elapsed(now, since) / (NANOS_PER_SEC as nat)
}

/// The whole milliseconds from `since` to `now`.
pub fn millis_between(now: u128, since: u128) -> (millis: u128)
    ensures
        millis == elapsed_millis(now as nat, since as nat),
{
    if now >= since {
        (now - since) / NANOS_PER_MILLI
    } else {
        0
    }
}

/// The whole seconds from `since` to `now`.
pub fn secs_between(now: u128, since: u128) -> (secs: u128)
    ensures
        secs == elapsed_secs(now as nat, since as nat),
{
    if now >= since {
        (now - since) / NANOS_PER_SEC
    } else {
        0
    }
}

/// Nanoseconds that have passed since `start`, by the clock. The number
/// depends on the moment of the call, so nothing is promised of it: what
/// takes it is verified for every value it may have.
pub(crate) fn nanos_since(start: &Instant) -> (nanos: u128) {
    start.elapsed().as_nanos()
}

} // verus!
