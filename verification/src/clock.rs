//! The monotonic clock of the standard library, read in whole milliseconds.

use std::time::Duration;
use std::time::Instant;
use vstd::prelude::*;

verus! {

/// `std::time::Instant`, a moment on the monotonic clock; opaque here.
#[verifier::external_type_specification]
#[verifier::external_body]
pub struct ExInstant(Instant);

/// `Instant::now`: the present moment. Nothing is claimed of it.
pub assume_specification[ Instant::now ]() -> (moment: Instant);

/// `Instant::elapsed`: the time gone by since `moment`. Nothing is claimed of
/// it.
pub assume_specification[ Instant::elapsed ](moment: &Instant) -> (span: Duration);

/// `Duration::as_millis`: the whole milliseconds in `span`. Nothing is
/// claimed of it.
pub assume_specification[ Duration::as_millis ](span: &Duration) -> (millis: u128);

/// `millis` as a `u64`, or the largest `u64` where it does not fit.
pub open spec fn saturated(millis: u128) -> u64 {
    if millis > u64::MAX {
        u64::MAX
    } else {
        millis as u64
    }
}

/// `millis` as a `u64`, or the largest `u64` where it does not fit.
pub fn saturate(millis: u128) -> (fitted: u64)
    ensures
        fitted == saturated(millis),
{
    if millis > u64::MAX as u128 {
        u64::MAX
    } else {
        millis as u64
    }
}

/// The whole milliseconds gone by since `moment`, or the largest `u64` where
/// they do not fit. Nothing is claimed of them: they are what the clock
/// says at the moment of the call.
pub fn millis_since(moment: &Instant) -> (millis: u64) {
    let span = moment.elapsed();
    saturate(span.as_millis())
}

} // verus!
