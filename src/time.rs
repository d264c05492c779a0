//! Timekeeping on the architectural counter: conversions between counter
//! ticks and durations, and the decisions behind uptime and busy waiting.
//!
//! The counter's frequency and its current value are read by the caller and
//! handed in as plain integers.

use vstd::prelude::*;
use vstd::arithmetic::div_mod::{
    lemma_div_is_ordered,
    lemma_fundamental_div_mod,
    lemma_hoist_over_denominator,
    lemma_multiply_divide_le,
    lemma_multiply_divide_lt,
};

verus! {

/// Nanoseconds in a second.
pub const NANOSEC_PER_SEC: u64 = 1_000_000_000;

/// A span of time: whole seconds and the nanoseconds beyond them.
#[derive(PartialEq, Eq, Clone, Copy, Debug)]
pub struct Duration {
    secs: u64,
    nanos: u32,
}

/// The whole nanoseconds in `ticks` counter ticks at `frequency` ticks per second.
pub open spec fn ticks_to_nanos(ticks: int, frequency: int) -> int {
    ticks * NANOSEC_PER_SEC / frequency
}

/// The whole counter ticks in `nanos` nanoseconds at `frequency` ticks per second.
pub open spec fn nanos_to_ticks(nanos: int, frequency: int) -> int {
    nanos * frequency / NANOSEC_PER_SEC as int
}

impl Duration {
    #[verifier::type_invariant]
    spec fn nanos_below_second(&self) -> bool {
        self.nanos < NANOSEC_PER_SEC
    }

    /// The whole seconds.
    pub closed spec fn secs_spec(&self) -> u64 {
        self.secs
    }

    /// The nanoseconds beyond the whole seconds.
    pub closed spec fn subsec_nanos_spec(&self) -> u32 {
        self.nanos
    }

    /// The span in nanoseconds.
    pub open spec fn total_nanos(&self) -> int {
        self.secs_spec() * NANOSEC_PER_SEC + self.subsec_nanos_spec()
    }

    /// `secs` seconds and `nanos` nanoseconds; whole seconds in `nanos` are
    /// carried into the seconds, which must not overflow.
    pub fn new(secs: u64, nanos: u32) -> (r: Self)
        requires
            secs as int + nanos as int / NANOSEC_PER_SEC as int <= u64::MAX,
        ensures
            r.secs_spec() == secs as int + nanos as int / NANOSEC_PER_SEC as int,
            r.subsec_nanos_spec() == nanos as int % NANOSEC_PER_SEC as int,
            r.total_nanos() == secs * NANOSEC_PER_SEC + nanos,
    {
        let ns = NANOSEC_PER_SEC as u32;
        let carry = (nanos / ns) as u64;
        let rest = nanos % ns;
        proof {
            lemma_fundamental_div_mod(nanos as int, NANOSEC_PER_SEC as int);
        }
        Duration { secs: secs + carry, nanos: rest }
    }

    /// The empty span.
    pub fn zero() -> (r: Self)
        ensures
            r.total_nanos() == 0,
    {
        Duration { secs: 0, nanos: 0 }
    }

    /// The whole seconds.
    pub fn as_secs(&self) -> (r: u64)
        ensures
            r == self.secs_spec(),
    {
        self.secs
    }

    /// The nanoseconds beyond the whole seconds, below a second.
    pub fn subsec_nanos(&self) -> (r: u32)
        ensures
            r == self.subsec_nanos_spec(),
            r < NANOSEC_PER_SEC,
    {
        proof {
            use_type_invariant(self);
        }
        self.nanos
    }

    /// The span in nanoseconds.
    pub fn as_nanos(&self) -> (r: u128)
        ensures
            r == self.total_nanos(),
    {
        proof {
            let s = self.secs as int;
            assert(s * NANOSEC_PER_SEC <= u64::MAX as int * NANOSEC_PER_SEC) by (nonlinear_arith)
                requires
                    0 <= s <= u64::MAX,
            ;
        }
        self.secs as u128 * NANOSEC_PER_SEC as u128 + self.nanos as u128
    }
}

/// The span of `counter_value` ticks at `frequency` ticks per second, rounded
/// down to whole nanoseconds.
pub fn counter_value_to_duration(counter_value: u64, frequency: u32) -> (r: Duration)
    requires
        frequency > 0,
    ensures
        r.total_nanos() == ticks_to_nanos(counter_value as int, frequency as int),
{
    if counter_value == 0 {
        return Duration::zero();
    }
    let f = frequency as u64;
    let secs = counter_value / f;
    let sub_second_counter_value = counter_value % f;
    proof {
        let v = counter_value as int;
        let fi = f as int;
        let q = secs as int;
        let rem = sub_second_counter_value as int;
        lemma_fundamental_div_mod(v, fi);
        assert(rem * NANOSEC_PER_SEC < fi * NANOSEC_PER_SEC) by (nonlinear_arith)
            requires
                rem < fi,
        ;
        assert(rem * NANOSEC_PER_SEC <= u32::MAX * NANOSEC_PER_SEC) by (nonlinear_arith)
            requires
                rem < fi,
                fi <= u32::MAX,
                rem >= 0,
        ;
        lemma_multiply_divide_lt(rem * NANOSEC_PER_SEC, fi, NANOSEC_PER_SEC as int);
        assert(v * NANOSEC_PER_SEC == rem * NANOSEC_PER_SEC + (q * NANOSEC_PER_SEC) * fi)
            by (nonlinear_arith)
            requires
                v == fi * q + rem,
        ;
        lemma_hoist_over_denominator(rem * NANOSEC_PER_SEC, q * NANOSEC_PER_SEC, fi as nat);
    }
    let nanos = (sub_second_counter_value * NANOSEC_PER_SEC / f) as u32;
    Duration { secs, nanos }
}

/// The longest span the counter can express at `frequency`.
pub fn max_duration(frequency: u32) -> (r: Duration)
    requires
        frequency > 0,
    ensures
        r.total_nanos() == ticks_to_nanos(u64::MAX as int, frequency as int),
{
    counter_value_to_duration(u64::MAX, frequency)
}

/// The counter ticks in `duration` at `frequency`, rounded down; fails when
/// `duration` is longer than the counter can express.
pub fn duration_to_counter_value(duration: Duration, frequency: u32) -> (r: Result<
    u64,
    &'static str,
>)
    requires
        frequency > 0,
    ensures
        r is Err <==> duration.total_nanos() > ticks_to_nanos(u64::MAX as int, frequency as int),
        r matches Ok(v) ==> v == nanos_to_ticks(duration.total_nanos(), frequency as int),
{
    let resolution = counter_value_to_duration(1, frequency);
    let nanos = duration.as_nanos();
    let f = frequency as u128;
    if nanos < resolution.as_nanos() {
        proof {
            let n = nanos as int;
            let fi = f as int;
            assert(n * fi < NANOSEC_PER_SEC) by (nonlinear_arith)
                requires
                    n < NANOSEC_PER_SEC as int / fi,
                    fi > 0,
                    n >= 0,
            {
                lemma_fundamental_div_mod(NANOSEC_PER_SEC as int, fi);
            }
            lemma_multiply_divide_lt(n * fi, NANOSEC_PER_SEC as int, 1);
            lemma_div_is_ordered(0, n * fi, NANOSEC_PER_SEC as int);
            lemma_div_is_ordered(NANOSEC_PER_SEC as int, u64::MAX as int * NANOSEC_PER_SEC as int, fi);
        }
        return Ok(0);
    }
    if nanos > max_duration(frequency).as_nanos() {
        return Err("Conversion error. Duration too big");
    }
    proof {
        let n = nanos as int;
        let fi = f as int;
        let m = u64::MAX as int * NANOSEC_PER_SEC as int;
        lemma_fundamental_div_mod(m, fi);
        assert(n * fi <= m) by (nonlinear_arith)
            requires
                n <= m / fi,
                fi > 0,
                m == fi * (m / fi) + m % fi,
                m % fi >= 0,
                n >= 0,
        ;
        lemma_multiply_divide_le(n * fi, NANOSEC_PER_SEC as int, u64::MAX as int);
        assert(n * fi <= u64::MAX as int * u32::MAX as int * NANOSEC_PER_SEC as int)
            by (nonlinear_arith)
            requires
                n * fi <= m,
                m == u64::MAX as int * NANOSEC_PER_SEC as int,
        ;
    }
    let counter_value = nanos * f / NANOSEC_PER_SEC as u128;
    Ok(counter_value as u64)
}

/// Time as the architectural counter tells it, at a fixed frequency.
pub struct TimeManager {
    frequency: u32,
}

impl TimeManager {
    /// The counter's frequency in ticks per second.
    pub closed spec fn frequency_spec(&self) -> u32 {
        self.frequency
    }

    /// A manager for a counter running at `frequency` ticks per second.
    pub fn new(frequency: u32) -> (r: Self)
        requires
            frequency > 0,
        ensures
            r.frequency_spec() == frequency,
    {
        TimeManager { frequency }
    }

    /// The counter's frequency in ticks per second.
    pub fn frequency(&self) -> (r: u32)
        ensures
            r == self.frequency_spec(),
    {
        self.frequency
    }

    /// The span of one counter tick.
    pub fn resolution(&self) -> (r: Duration)
        requires
            self.frequency_spec() > 0,
        ensures
            r.total_nanos() == ticks_to_nanos(1, self.frequency_spec() as int),
    {
        counter_value_to_duration(1, self.frequency)
    }

    /// The time since power-on, firmware and boot loader included, given the
    /// counter's current value.
    pub fn uptime(&self, counter_value: u64) -> (r: Duration)
        requires
            self.frequency_spec() > 0,
        ensures
            r.total_nanos() == ticks_to_nanos(counter_value as int, self.frequency_spec() as int),
    {
        counter_value_to_duration(counter_value, self.frequency)
    }

    /// The counter value to spin until, to wait `duration` from the counter
    /// value `now`; the sum wraps around as the counter does. Fails, and no
    /// wait is due, when `duration` is longer than the counter can express.
    pub fn spin_for(&self, duration: Duration, now: u64) -> (r: Result<u64, &'static str>)
        requires
            self.frequency_spec() > 0,
        ensures
            r is Err <==> duration.total_nanos() > ticks_to_nanos(
                u64::MAX as int,
                self.frequency_spec() as int,
            ),
            r matches Ok(target) ==> target == (now as int + nanos_to_ticks(
                duration.total_nanos(),
                self.frequency_spec() as int,
            )) % (u64::MAX as int + 1),
    {
        match duration_to_counter_value(duration, self.frequency) {
            Err(msg) => Err(msg),
            Ok(delta) => Ok(now.wrapping_add(delta)),
        }
    }
}

} // verus!
