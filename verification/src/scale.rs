//! Fixed-point scaling from native timebase ticks to microsecond ticks.
//!
//! A span of `elapsed_ticks` ticks on a timebase running at `hz` ticks per
//! second lasts `elapsed_ticks / hz` seconds, i.e. `elapsed_ticks * 1_000_000
//! / hz` microseconds. The clock reports that count floored to a whole number
//! of microseconds and reduced modulo 2^64 so that a span too long for the
//! 64-bit output type wraps around instead of misbehaving.

use vstd::prelude::*;
use vstd::arithmetic::div_mod::{
    lemma_basic_div, lemma_div_is_ordered, lemma_div_multiples_vanish_fancy,
    lemma_fundamental_div_mod, lemma_hoist_over_denominator, lemma_small_mod,
};
use vstd::arithmetic::mul::lemma_mul_is_distributive_add;

verus! {

/// Output ticks per second: one output tick is exactly one microsecond.
pub const MICROS_PER_SECOND: u64 = 1_000_000;

/// One past the largest count the 64-bit output tick type can hold.
pub const TICK_MODULUS: u128 = 0x1_0000_0000_0000_0000;

/// The exact number of whole microseconds in a span of `elapsed_ticks` native
/// ticks at `hz` ticks per second, floored toward zero.
pub open spec fn micros_of(elapsed_ticks: nat, hz: nat) -> nat
    recommends
        1 <= hz,
{
    (elapsed_ticks * (MICROS_PER_SECOND as nat)) / hz
}

/// The microsecond count as the 64-bit output type reports it: the exact
/// count reduced modulo 2^64.
pub open spec fn wrapped_micros(elapsed_ticks: nat, hz: nat) -> nat
    recommends
        1 <= hz,
{
    micros_of(elapsed_ticks, hz) % (TICK_MODULUS as nat)
}

/// Floor-convert a span of native ticks into whole microseconds, reducing the
/// result modulo 2^64 when the span exceeds the output range.
pub fn elapsed_ticks_to_micros(elapsed_ticks: u64, hz: u64) -> (r: u64)
    requires
        1 <= hz,
    ensures
        r == wrapped_micros(elapsed_ticks as nat, hz as nat),
{
    let wide: u128 = (elapsed_ticks as u128) * (MICROS_PER_SECOND as u128);
    let micros: u128 = wide / (hz as u128);
    let wrapped: u128 = micros % TICK_MODULUS;
    wrapped as u64
}

/// Zero at start: a span of zero native ticks reports zero microseconds,
/// whatever the timebase rate.
pub proof fn lemma_zero_elapsed_is_zero(hz: nat)
    requires
        1 <= hz,
    ensures
        wrapped_micros(0, hz) == 0,
{
    lemma_basic_div(0, hz as int);
    lemma_small_mod(0, TICK_MODULUS as nat);
}

/// Monotonicity: a longer span never reports fewer microseconds, as long as
/// the longer span still fits the 64-bit output range.
pub proof fn lemma_micros_monotonic(e1: nat, e2: nat, hz: nat)
    requires
        1 <= hz,
        e1 <= e2,
        micros_of(e2, hz) < TICK_MODULUS,
    ensures
        micros_of(e1, hz) <= micros_of(e2, hz),
        wrapped_micros(e1, hz) <= wrapped_micros(e2, hz),
{
    lemma_div_is_ordered(
        (e1 * (MICROS_PER_SECOND as nat)) as int,
        (e2 * (MICROS_PER_SECOND as nat)) as int,
        hz as int,
    );
    lemma_small_mod(micros_of(e1, hz), TICK_MODULUS as nat);
    lemma_small_mod(micros_of(e2, hz), TICK_MODULUS as nat);
}

/// Scale correctness: extending a span by `delta` native ticks that make up
/// exactly `d` whole microseconds (`delta * 1_000_000 == d * hz`) raises the
/// reported count by exactly `d`, whatever the native rate `hz` and wherever
/// the span starts.
pub proof fn lemma_exact_scale(e: nat, delta: nat, d: nat, hz: nat)
    requires
        1 <= hz,
        delta * (MICROS_PER_SECOND as nat) == d * hz,
    ensures
        micros_of(e + delta, hz) == micros_of(e, hz) + d,
        micros_of(e + delta, hz) < TICK_MODULUS ==> wrapped_micros(e + delta, hz)
            == wrapped_micros(e, hz) + d,
{
    let x = (e * (MICROS_PER_SECOND as nat)) as int;
    assert((e + delta) * (MICROS_PER_SECOND as nat)
        == e * (MICROS_PER_SECOND as nat) + delta * (MICROS_PER_SECOND as nat));
    lemma_hoist_over_denominator(x, d as int, hz);
    if micros_of(e + delta, hz) < TICK_MODULUS as nat {
        lemma_small_mod(micros_of(e, hz), TICK_MODULUS as nat);
        lemma_small_mod(micros_of(e + delta, hz), TICK_MODULUS as nat);
    }
}

/// Independence of epochs: the microseconds of a combined span `a + b` are
/// the microseconds of its parts added, up to one microsecond lost to floor
/// rounding. So two clocks on one timebase, read at one sample, differ by the
/// span between their epochs within that tolerance.
pub proof fn lemma_span_additive(a: nat, b: nat, hz: nat)
    requires
        1 <= hz,
    ensures
        micros_of(a, hz) + micros_of(b, hz) <= micros_of(a + b, hz),
        micros_of(a + b, hz) <= micros_of(a, hz) + micros_of(b, hz) + 1,
{
    let n = hz as int;
    let x = (a * (MICROS_PER_SECOND as nat)) as int;
    let y = (b * (MICROS_PER_SECOND as nat)) as int;
    let q1 = x / n;
    let r1 = x % n;
    let q2 = y / n;
    let r2 = y % n;
    lemma_fundamental_div_mod(x, n);
    lemma_fundamental_div_mod(y, n);
    assert((a + b) * (MICROS_PER_SECOND as nat)
        == a * (MICROS_PER_SECOND as nat) + b * (MICROS_PER_SECOND as nat));
    if r1 + r2 < n {
        lemma_mul_is_distributive_add(n, q1, q2);
        assert(x + y == n * (q1 + q2) + (r1 + r2));
        lemma_div_multiples_vanish_fancy(q1 + q2, r1 + r2, n);
    } else {
        lemma_mul_is_distributive_add(n, q1 + q2, 1);
        lemma_mul_is_distributive_add(n, q1, q2);
        assert(x + y == n * (q1 + q2 + 1) + (r1 + r2 - n));
        lemma_div_multiples_vanish_fancy(q1 + q2 + 1, r1 + r2 - n, n);
    }
}

/// Overflow policy: the reported count is always the exact microsecond count
/// reduced modulo 2^64 — never anything undefined — and within the 64-bit
/// range it is the exact count itself.
pub proof fn lemma_wraparound(e: nat, hz: nat)
    requires
        1 <= hz,
    ensures
        wrapped_micros(e, hz) == micros_of(e, hz) % (TICK_MODULUS as nat),
        micros_of(e, hz) < TICK_MODULUS ==> wrapped_micros(e, hz) == micros_of(e, hz),
{
    if micros_of(e, hz) < TICK_MODULUS as nat {
        lemma_small_mod(micros_of(e, hz), TICK_MODULUS as nat);
    }
}

} // verus!
