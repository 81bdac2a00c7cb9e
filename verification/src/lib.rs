//! A monotonic clock adapter with a fixed microsecond tick.
//!
//! The clock captures an epoch from the global monotonic timebase when it is
//! constructed; each query reads the timebase again, floors the elapsed span
//! to whole microseconds and reports it as a 64-bit tick count, wrapping
//! modulo 2^64 on spans too long for the output type. The scaling factor is
//! fixed at 1/1_000_000 — one tick per microsecond — whatever the native
//! rate of the underlying timebase.

use vstd::prelude::*;

pub mod scale;
mod timebase;

use scale::{micros_of, wrapped_micros, TICK_MODULUS};

verus! {

/// Numerator of the fixed scaling factor: each tick is 1/1_000_000 second.
pub const SCALING_FACTOR_NUMERATOR: u32 = 1;

/// Denominator of the fixed scaling factor: each tick is 1/1_000_000 second.
pub const SCALING_FACTOR_DENOMINATOR: u32 = 1_000_000;

/// A point in time reported by an [`EmbassyClock`]: a count of whole
/// microseconds elapsed since that clock's epoch, wrapped modulo 2^64.
///
/// Counts are only comparable between instants of the same clock instance;
/// clocks constructed at different times have independent epochs.
#[derive(Copy, Clone, Debug, PartialEq, Eq, Structural)]
pub struct TickInstant {
    /// Whole microseconds since the reporting clock's epoch, modulo 2^64.
    pub ticks: u64,
}

/// The one failure a query can report: the timebase handed back a sample from
/// before the clock's epoch, which its contract rules out, so the reading
/// cannot be trusted.
#[derive(Copy, Clone, Debug, PartialEq, Eq, Structural)]
pub enum ClockError {
    /// The current time could not be read consistently.
    Unavailable,
}

/// A clock with at most microsecond precision, started when it is
/// constructed. The actual precision is that of the underlying timebase.
///
/// With a 64-bit tick register the clock represents about 584542 years of
/// elapsed time, after which it rolls over modulo 2^64.
#[derive(Copy, Clone, Debug)]
pub struct EmbassyClock {
    start: u64,
    hz: u64,
}

impl EmbassyClock {
    /// A timebase rate of zero ticks per second would make the elapsed span
    /// meaningless; every constructor establishes a positive rate.
    #[verifier::type_invariant]
    spec fn wf(self) -> bool {
        1 <= self.hz
    }

    /// The epoch: the timebase's native tick count captured at construction.
    pub closed spec fn start_ticks(self) -> u64 {
        self.start
    }

    /// The native rate of the timebase this clock reads, in ticks per second.
    pub closed spec fn tick_hz(self) -> u64 {
        self.hz
    }

    /// What a query reports when the timebase sample is `now_ticks`: the span
    /// since the epoch in whole microseconds, wrapped modulo 2^64 — or the
    /// error, on a sample from before the epoch, which a sound timebase
    /// never produces.
    pub open spec fn spec_query(self, now_ticks: u64) -> Result<TickInstant, ClockError> {
        if now_ticks >= self.start_ticks() {
            Ok(
                (TickInstant {
                    ticks: wrapped_micros(
                        (now_ticks - self.start_ticks()) as nat,
                        self.tick_hz() as nat,
                    ) as u64,
                }),
            )
        } else {
            Err(ClockError::Unavailable)
        }
    }

    /// Start a clock: capture the current timebase sample as the epoch.
    pub fn new() -> (r: Self)
        ensures
            1 <= r.tick_hz(),
    {
        let hz = timebase::ticks_per_second();
        let start = timebase::now_ticks();
        EmbassyClock { start, hz }
    }

    /// Start a clock at a chosen epoch on a timebase of a chosen rate. This
    /// is the deterministic entry: it reads no external time, so a caller
    /// can stand in for the timebase and drive [`Self::query_at`] itself.
    pub fn with_epoch(start_ticks: u64, ticks_per_second: u64) -> (r: Self)
        requires
            1 <= ticks_per_second,
        ensures
            r.start_ticks() == start_ticks,
            r.tick_hz() == ticks_per_second,
    {
        EmbassyClock { start: start_ticks, hz: ticks_per_second }
    }

    /// Answer a query for a given timebase sample: exactly
    /// [`Self::spec_query`], computed without reading external time.
    pub fn query_at(&self, now_ticks: u64) -> (r: Result<TickInstant, ClockError>)
        ensures
            r == self.spec_query(now_ticks),
    {
        proof {
            use_type_invariant(&*self);
        }
        if now_ticks >= self.start {
            let elapsed: u64 = now_ticks - self.start;
            let ticks = scale::elapsed_ticks_to_micros(elapsed, self.hz);
            Ok(TickInstant { ticks })
        } else {
            Err(ClockError::Unavailable)
        }
    }

    /// The current time of this clock: sample the timebase once and report
    /// the span since the epoch. The sample is whatever the timebase hands
    /// back, so all that is promised is that the result answers some sample;
    /// the error can only ever come from a sample before the epoch, which
    /// the timebase's own contract rules out.
    pub fn try_now(&self) -> (r: Result<TickInstant, ClockError>)
        ensures
            exists|sample: u64| r == self.spec_query(sample),
            r matches Err(e) ==> e == ClockError::Unavailable,
    {
        let now = timebase::now_ticks();
        self.query_at(now)
    }

    /// The epoch as a plain tick count, so a caller can confirm that queries
    /// never move it.
    pub fn epoch_ticks(&self) -> (r: u64)
        ensures
            r == self.start_ticks(),
    {
        self.start
    }

    /// The native rate of the underlying timebase, in ticks per second.
    pub fn timebase_ticks_per_second(&self) -> (r: u64)
        ensures
            r == self.tick_hz(),
            1 <= r,
    {
        proof {
            use_type_invariant(&*self);
        }
        self.hz
    }
}

impl Default for EmbassyClock {
    /// Start a clock on the global timebase; same as [`EmbassyClock::new`].
    fn default() -> (r: Self)
        ensures
            1 <= r.tick_hz(),
    {
        EmbassyClock::new()
    }
}

/// Zero at start: a query answered with the very sample that became the
/// epoch reports a count of zero.
pub proof fn lemma_zero_at_start(c: EmbassyClock)
    requires
        1 <= c.tick_hz(),
    ensures
        c.spec_query(c.start_ticks()) matches Ok(t) && t.ticks == 0,
{
    scale::lemma_zero_elapsed_is_zero(c.tick_hz() as nat);
}

/// Monotonicity and idempotence: on one instance, a query at a later sample
/// never reports a smaller count, provided the later span still fits the
/// 64-bit output range; and equal samples report equal instants, however
/// often the query is repeated.
pub proof fn lemma_query_monotonic(c: EmbassyClock, now1: u64, now2: u64)
    requires
        1 <= c.tick_hz(),
        c.start_ticks() <= now1 <= now2,
        micros_of((now2 - c.start_ticks()) as nat, c.tick_hz() as nat) < TICK_MODULUS,
    ensures
        c.spec_query(now1) matches Ok(t1) && c.spec_query(now2) matches Ok(t2)
            && t1.ticks <= t2.ticks,
        now1 == now2 ==> c.spec_query(now1) == c.spec_query(now2),
{
    scale::lemma_micros_monotonic(
        (now1 - c.start_ticks()) as nat,
        (now2 - c.start_ticks()) as nat,
        c.tick_hz() as nat,
    );
}

/// Scale correctness: advancing the timebase by ticks worth exactly `d`
/// whole microseconds (`delta * 1_000_000 == d * hz`) raises the reported
/// count by exactly `d`, whatever the native rate.
pub proof fn lemma_query_scale(c: EmbassyClock, now: u64, delta: u64, d: u64)
    requires
        1 <= c.tick_hz(),
        c.start_ticks() <= now,
        now + delta <= u64::MAX,
        delta * (scale::MICROS_PER_SECOND as nat) == d * c.tick_hz(),
        micros_of((now + delta - c.start_ticks()) as nat, c.tick_hz() as nat) < TICK_MODULUS,
    ensures
        c.spec_query(now) matches Ok(t1) && c.spec_query((now + delta) as u64) matches Ok(t2)
            && t2.ticks == t1.ticks + d,
{
    scale::lemma_exact_scale(
        (now - c.start_ticks()) as nat,
        delta as nat,
        d as nat,
        c.tick_hz() as nat,
    );
}

/// Independence of instances: two clocks on the same timebase, read at the
/// same sample, differ by the span between their epochs in microseconds, up
/// to one microsecond lost to floor rounding — and nothing ties their counts
/// together beyond that.
pub proof fn lemma_instance_independence(c1: EmbassyClock, c2: EmbassyClock, now: u64)
    requires
        1 <= c1.tick_hz(),
        c1.tick_hz() == c2.tick_hz(),
        c1.start_ticks() <= c2.start_ticks() <= now,
        micros_of((now - c1.start_ticks()) as nat, c1.tick_hz() as nat) < TICK_MODULUS,
    ensures
        c1.spec_query(now) matches Ok(t1) && c2.spec_query(now) matches Ok(t2) && {
            let span = micros_of(
                (c2.start_ticks() - c1.start_ticks()) as nat,
                c1.tick_hz() as nat,
            );
            t2.ticks + span <= t1.ticks <= t2.ticks + span + 1
        },
{
    let hz = c1.tick_hz() as nat;
    let a = (now - c2.start_ticks()) as nat;
    let b = (c2.start_ticks() - c1.start_ticks()) as nat;
    scale::lemma_span_additive(a, b, hz);
    scale::lemma_micros_monotonic(a, (a + b) as nat, hz);
    scale::lemma_micros_monotonic(b, (a + b) as nat, hz);
}

} // verus!
