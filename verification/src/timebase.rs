//! The global monotonic timebase, read through `embassy_time`.

use vstd::prelude::*;

verus! {

/// Relies on `embassy_time::Instant::now` and `Instant::as_ticks`: the
/// current native tick count of the global monotonic driver. The driver
/// documents the count as non-decreasing and always readable, but which
/// count a given call sees depends on when it runs, so nothing is stated of
/// the result: callers must hold against every possible sample.
#[verifier::external_body]
pub(crate) fn now_ticks() -> u64 {
    embassy_time::Instant::now().as_ticks()
}

/// Relies on `embassy_time::TICK_HZ`: the ticks-per-second rate of the
/// global timebase. Every `tick-hz-*` configuration of `embassy_time_driver`
/// sets it to a positive literal, so the rate is at least one.
#[verifier::external_body]
pub(crate) fn ticks_per_second() -> (r: u64)
    ensures
        1 <= r,
{
    embassy_time::TICK_HZ
}

} // verus!
