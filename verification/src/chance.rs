//! Random draws, taken from the thread-local generator of the `rand` crate.

use rand::distributions::Alphanumeric;
use rand::Rng;
use vstd::prelude::*;

verus! {

/// Whether `c` is one of the 62 ASCII letters and digits.
pub open spec fn is_alphanumeric(c: char) -> bool {
    ('0' <= c && c <= '9') || ('A' <= c && c <= 'Z') || ('a' <= c && c <= 'z')
}

/// `rand::Rng::gen_range` on `rand::thread_rng()`, over `low..high`.
///
/// Trusted: the value lies in the half-open range that was asked for. The
/// range must not be empty, as `gen_range` panics on an empty one.
#[verifier::external_body]
pub(crate) fn integer_between(low: i64, high: i64) -> (r: i64)
    requires
        low < high,
    ensures
        low <= r < high,
{
    rand::thread_rng().gen_range(low..high)
}

/// A random index below `bound`.
pub(crate) fn index_below(bound: usize) -> (r: usize)
    requires
        0 < bound <= 0x7fff_ffff,
    ensures
        r < bound,
{
    integer_between(0, bound as i64) as usize
}

/// `rand::Rng::gen_ratio` on `rand::thread_rng()`.
///
/// Trusted: a ratio of zero never yields `true` and a ratio of one always
/// does; in between nothing is promised. `gen_ratio` panics on a zero
/// denominator and on a numerator above the denominator.
#[verifier::external_body]
pub(crate) fn chance_of(numerator: u32, denominator: u32) -> (r: bool)
    requires
        denominator > 0,
        numerator <= denominator,
    ensures
        numerator == 0 ==> !r,
        numerator == denominator ==> r,
{
    rand::thread_rng().gen_ratio(numerator, denominator)
}

/// `rand::Rng::sample` of `rand::distributions::Alphanumeric` on
/// `rand::thread_rng()`.
///
/// Trusted: the byte is an ASCII letter or digit.
#[verifier::external_body]
pub(crate) fn alphanumeric_byte() -> (r: u8)
    ensures
        is_alphanumeric(r as char),
{
    rand::thread_rng().sample(Alphanumeric)
}

} // verus!
