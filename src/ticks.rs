//! Hardware ticks: a 32768 Hz counter that wraps at 2^32, and the wrap-safe
//! comparison used for every deadline.
use vstd::prelude::*;

verus! {

/// Ticks in one second of the hardware counter.
pub const TICKS_PER_SECOND: u32 = 32768;

/// Whole ticks counted for one millisecond.
pub const TICKS_PER_MILLISECOND: u32 = 33;

/// Microseconds that one tick stands for.
pub const MICROSECONDS_PER_TICK: u32 = 30;

/// Half of the counter's range: deadlines further apart than this cannot be ordered.
pub const HALF_RANGE: u32 = 0x8000_0000;

/// The number of distinct tick values.
pub open spec fn tick_range() -> int {
    0x1_0000_0000
}

/// `a + b` on the wrapping counter.
pub open spec fn tick_add(a: u32, b: u32) -> u32 {
    ((a as int + b as int) % tick_range()) as u32
}

/// `a - b` on the wrapping counter.
pub open spec fn tick_sub(a: u32, b: u32) -> u32 {
    ((a as int - b as int) % tick_range()) as u32
}

/// The deadline `at_tick` has passed at tick `now`: the wrapped distance from the
/// deadline to now, read as a signed 32-bit number, is not negative.
pub open spec fn tick_passed(now: u32, at_tick: u32) -> bool {
    tick_sub(now, at_tick) < HALF_RANGE
}

/// `a + b` on the wrapping counter.
pub fn wrapping_tick_add(a: u32, b: u32) -> (r: u32)
    ensures
        r == tick_add(a, b),
{
    a.wrapping_add(b)
}

/// `a - b` on the wrapping counter.
pub fn wrapping_tick_sub(a: u32, b: u32) -> (r: u32)
    ensures
        r == tick_sub(a, b),
{
    a.wrapping_sub(b)
}

/// Tells whether the deadline `at_tick` has passed at tick `now`.
pub fn has_time_passed(now: u32, at_tick: u32) -> (r: bool)
    ensures
        r == tick_passed(now, at_tick),
{
    wrapping_tick_sub(now, at_tick) < HALF_RANGE
}

/// Reduces a value within one range of the counter on either side.
pub proof fn lemma_wrap(v: int)
    requires
        -tick_range() <= v < 2 * tick_range(),
    ensures
        v % tick_range() == if v < 0 {
            v + tick_range()
        } else if v < tick_range() {
            v
        } else {
            v - tick_range()
        },
{
    if v < 0 {
        assert((v + tick_range()) % tick_range() == v % tick_range()) by (nonlinear_arith)
            requires
                tick_range() == 0x1_0000_0000,
        ;
        vstd::arithmetic::div_mod::lemma_small_mod((v + tick_range()) as nat, tick_range() as nat);
    } else if v < tick_range() {
        vstd::arithmetic::div_mod::lemma_small_mod(v as nat, tick_range() as nat);
    } else {
        assert((v - tick_range()) % tick_range() == v % tick_range()) by (nonlinear_arith)
            requires
                tick_range() == 0x1_0000_0000,
        ;
        vstd::arithmetic::div_mod::lemma_small_mod((v - tick_range()) as nat, tick_range() as nat);
    }
}

/// Once a deadline is set, the tick `k` ticks after it counts as passed exactly
/// when `k` is below half the counter's range: the check turns true at the
/// deadline, stays true for 2^31 ticks, and only turns false again once the
/// counter has wrapped half-way round.
pub proof fn lemma_passed_window(at_tick: u32, k: u32)
    ensures
        tick_passed(tick_add(at_tick, k), at_tick) <==> k < HALF_RANGE,
        k > 0 && k <= HALF_RANGE ==> !tick_passed(tick_sub(at_tick, k), at_tick),
{
    lemma_wrap(at_tick + k);
    let now = tick_add(at_tick, k);
    lemma_wrap(now - at_tick);
    lemma_wrap(at_tick - k);
    let before = tick_sub(at_tick, k);
    lemma_wrap(before - at_tick);
}

/// Two distinct ticks less than 2^31 apart (in wrapped distance) are ordered
/// one way only: exactly one of them has passed relative to the other.
pub proof fn lemma_passed_total(a: u32, b: u32)
    requires
        a != b,
        tick_sub(a, b) != HALF_RANGE,
    ensures
        tick_passed(a, b) != tick_passed(b, a),
{
    lemma_wrap(a - b);
    lemma_wrap(b - a);
}

/// A length of time with nanosecond resolution, as whole seconds and the
/// nanoseconds beyond them.
#[derive(Clone, Copy, Debug, PartialEq, Eq, Hash)]
pub struct Span {
    secs: u64,
    nanos: u32,
}

/// Nanoseconds in one second.
pub const NANOS_PER_SEC: u32 = 1_000_000_000;

impl Span {
    pub closed spec fn spec_secs(&self) -> u64 {
        self.secs
    }

    pub closed spec fn spec_nanos(&self) -> u32 {
        self.nanos
    }

    /// The nanoseconds beyond the whole seconds stay below one second.
    #[verifier::type_invariant]
    spec fn inv(&self) -> bool {
        self.nanos < NANOS_PER_SEC
    }

    /// The span as a number of ticks before it is reduced to 32 bits.
    pub open spec fn exact_ticks(&self) -> int {
        self.spec_secs() * TICKS_PER_SECOND as int + (self.spec_nanos() / 1_000_000) as int
            * TICKS_PER_MILLISECOND as int + ((self.spec_nanos() / 1000) % 1000) as int
            / MICROSECONDS_PER_TICK as int
    }

    /// The span of `secs` seconds and `nanos` nanoseconds.
    pub fn new(secs: u64, nanos: u32) -> (r: Span)
        requires
            nanos < NANOS_PER_SEC,
        ensures
            r.spec_secs() == secs,
            r.spec_nanos() == nanos,
    {
        Span { secs, nanos }
    }

    /// The span of `ms` milliseconds.
    pub fn from_millis(ms: u64) -> (r: Span)
        ensures
            r.spec_secs() == ms / 1000,
            r.spec_nanos() == (ms % 1000) * 1_000_000,
    {
        Span { secs: ms / 1000, nanos: ((ms % 1000) as u32) * 1_000_000 }
    }

    pub fn as_secs(&self) -> (r: u64)
        ensures
            r == self.spec_secs(),
    {
        self.secs
    }

    pub fn subsec_nanos(&self) -> (r: u32)
        ensures
            r == self.spec_nanos(),
    {
        self.nanos
    }

    pub fn subsec_millis(&self) -> (r: u32)
        ensures
            r == self.spec_nanos() / 1_000_000,
            r < 1000,
    {
        proof {
            use_type_invariant(self);
        }
        self.nanos / 1_000_000
    }

    pub fn subsec_micros(&self) -> (r: u32)
        ensures
            r == self.spec_nanos() / 1000,
    {
        proof {
            use_type_invariant(self);
        }
        self.nanos / 1000
    }

    /// The span that `ticks` hardware ticks stand for.
    pub open spec fn spec_from_ticks(ticks: u32) -> (u64, u32) {
        (
            (ticks / TICKS_PER_SECOND) as u64,
            ((ticks % TICKS_PER_SECOND) / TICKS_PER_MILLISECOND * 1_000_000 + (ticks
                % TICKS_PER_SECOND) % TICKS_PER_MILLISECOND * MICROSECONDS_PER_TICK * 1000) as u32,
        )
    }

    /// The span of `ticks` hardware ticks, at the counter's resolution of
    /// 33 ticks a millisecond and 30 microseconds a tick.
    pub fn from_tick_count(ticks: u32) -> (r: Span)
        ensures
            (r.spec_secs(), r.spec_nanos()) == Span::spec_from_ticks(ticks),
    {
        let millis_part = ticks % TICKS_PER_SECOND;
        let micros_part = millis_part % TICKS_PER_MILLISECOND;
        let millis = millis_part / TICKS_PER_MILLISECOND;
        let micros = micros_part * MICROSECONDS_PER_TICK;
        assert(millis <= 992);
        assert(micros < 990);
        Span { secs: (ticks / TICKS_PER_SECOND) as u64, nanos: millis * 1_000_000 + micros * 1000 }
    }

    /// The span in hardware ticks, reduced modulo 2^32 as the counter is.
    pub fn tick_count(&self) -> (r: u32)
        ensures
            r as int == self.exact_ticks() % tick_range(),
    {
        proof {
            use_type_invariant(self);
        }
        let secs = (self.secs % 0x1_0000_0000u64) as u32;
        let millis = self.subsec_millis();
        let micros = self.subsec_micros() % 1000 / MICROSECONDS_PER_TICK;
        assert(micros < 34);
        let r = secs.wrapping_mul(TICKS_PER_SECOND).wrapping_add(millis * TICKS_PER_MILLISECOND + micros);
        assert(r as int == self.exact_ticks() % tick_range()) by (nonlinear_arith)
            requires
                secs as int == self.secs as int % tick_range(),
                r as int == ((secs as int * 32768) % tick_range() + millis * 33 + micros) % tick_range(),
                self.exact_ticks() == self.secs * 32768 + millis * 33 + micros,
        {
        }
        r
    }
}

/// Conversion between a time type and hardware ticks.
pub trait Ticks: Sized {
    fn from_ticks(ticks: u32) -> Self;

    fn as_ticks(&self) -> u32;
}

impl Ticks for Span {
    fn from_ticks(ticks: u32) -> Span {
        Span::from_tick_count(ticks)
    }

    fn as_ticks(&self) -> u32 {
        self.tick_count()
    }
}

} // verus!
