//! Spans of time, measured in whole nanoseconds.
//!
//! The clock of this crate is [`Duration`]. Verified code cannot look inside a [`Duration`],
//! so the two numbers that make one up are given names here, and the stores of this crate
//! keep time as a single count of nanoseconds.
use core::time::Duration;
use vstd::prelude::*;

verus! {

/// The number of nanoseconds in one second.
pub const NANOS_PER_SEC: u32 = 1_000_000_000;

/// The longest span of time that a [`Duration`] can hold, in nanoseconds:
/// `u64::MAX` seconds and 999,999,999 nanoseconds.
pub const MAX_NANOS: u128 = 18_446_744_073_709_551_615_999_999_999;

/// The whole seconds in `duration`: what [`Duration::as_secs`] returns for it.
pub uninterp spec fn duration_secs(duration: Duration) -> u64;

/// The part of `duration` below one second, in nanoseconds:
/// what [`Duration::subsec_nanos`] returns for it.
pub uninterp spec fn duration_subsec_nanos(duration: Duration) -> u32;

/// The length of `duration` in nanoseconds.
pub open spec fn duration_nanos(duration: Duration) -> nat {
    (duration_secs(duration) * NANOS_PER_SEC + duration_subsec_nanos(duration)) as nat
}

/// Calls [`Duration::as_secs`], which is trusted to be a function of the duration alone.
#[verifier::external_body]
fn as_secs(duration: Duration) -> (secs: u64)
    ensures
        secs == duration_secs(duration),
{
    duration.as_secs()
}

/// Calls [`Duration::subsec_nanos`], which is trusted to be a function of the duration alone
/// and, as documented, to return less than one billion.
#[verifier::external_body]
fn subsec_nanos(duration: Duration) -> (nanos: u32)
    ensures
        nanos == duration_subsec_nanos(duration),
        nanos < NANOS_PER_SEC,
{
    duration.subsec_nanos()
}

/// Calls [`Duration::new`], which is trusted to build the duration of `secs` whole seconds and
/// `nanos` nanoseconds. With `nanos` below one billion nothing is carried over into the
/// seconds, so the call cannot panic.
#[verifier::external_body]
fn from_parts(secs: u64, nanos: u32) -> (duration: Duration)
    requires
        nanos < NANOS_PER_SEC,
    ensures
        duration_secs(duration) == secs,
        duration_subsec_nanos(duration) == nanos,
{
    Duration::new(secs, nanos)
}

/// The length of `duration` in nanoseconds.
pub fn nanos_of(duration: Duration) -> (nanos: u128)
    ensures
        nanos == duration_nanos(duration),
        nanos <= MAX_NANOS,
{
    let secs: u64 = as_secs(duration);
    let subsec: u32 = subsec_nanos(duration);
    assert(NANOS_PER_SEC == 1_000_000_000);
    secs as u128 * 1_000_000_000 + subsec as u128
}

/// The [`Duration`] that is `nanos` nanoseconds long.
pub fn duration_of(nanos: u128) -> (duration: Duration)
    requires
        nanos <= MAX_NANOS,
    ensures
        duration_nanos(duration) == nanos,
{
    assert(NANOS_PER_SEC == 1_000_000_000);
    let secs: u128 = nanos / 1_000_000_000;
    let subsec: u128 = nanos % 1_000_000_000;
    from_parts(secs as u64, subsec as u32)
}

} // verus!
