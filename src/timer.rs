//! The timer reactor: one-shot timers, repeating intervals and timeouts, all
//! measured against the wrapping hardware tick counter.
//!
//! A timer is level-triggered: once its deadline has passed, every poll reports
//! it ready again (with a growing overshoot) until it is rescheduled.
use crate::ticks::{
    has_time_passed, lemma_wrap, tick_add, tick_passed, tick_sub, wrapping_tick_add, wrapping_tick_sub, Span,
    Ticks, HALF_RANGE, TICKS_PER_SECOND,
};
use crate::wake::{Poll, WakeMarker, WakerSlot};
use vstd::prelude::*;

verus! {

/// The error returned when a future times out.
#[derive(PartialEq, Eq, Structural, Clone, Copy, Default, Debug, Hash)]
pub struct TimeoutError;

impl TimeoutError {
    pub fn message(&self) -> (r: &'static str)
        ensures
            r@ == "future has timed out"@,
    {
        "future has timed out"
    }
}

/// One timer's slot: its deadline and waker, and whether a handle still holds
/// it. A closed slot is reused, under a new generation, by the next timer.
pub struct TimerEntry {
    generation: u64,
    open: bool,
    at_tick: u32,
    waker: WakerSlot,
}

impl TimerEntry {
    pub closed spec fn spec_generation(&self) -> u64 {
        self.generation
    }

    pub closed spec fn spec_open(&self) -> bool {
        self.open
    }

    pub closed spec fn deadline(&self) -> u32 {
        self.at_tick
    }

    pub closed spec fn registered(&self) -> bool {
        self.waker@
    }
}

/// A handle on one timer of a [`TimerListener`].
pub struct Timer {
    index: usize,
    generation: u64,
}

impl Timer {
    pub closed spec fn spec_index(&self) -> int {
        self.index as int
    }

    pub closed spec fn spec_generation(&self) -> u64 {
        self.generation
    }
}

/// The sleep, in ticks, that lets the timer due at `at_tick` fire on time when
/// the time is `now`: the wrapped distance to it, below 2^31.
pub open spec fn sleep_for(at_tick: u32, now: u32) -> u32 {
    (tick_sub(at_tick, now) % HALF_RANGE) as u32
}

/// What one reactor pass at `now` does to the timers: every open timer whose
/// deadline has passed is woken, and nothing else changes.
pub open spec fn timers_polled(before: TimerListener, after: TimerListener, now: u32) -> bool {
    &&& after.entries().len() == before.entries().len()
    &&& forall|i: int|
        0 <= i < before.entries().len() ==> {
            let b = before.entries()[i];
            let a = #[trigger] after.entries()[i];
            &&& a.spec_open() == b.spec_open()
            &&& a.spec_generation() == b.spec_generation()
            &&& a.deadline() == b.deadline()
            &&& a.registered() == (b.registered() && !(b.spec_open() && tick_passed(
                now,
                b.deadline(),
            )))
        }
}

/// The outstanding timers, and the registry that creates them.
pub struct TimerListener {
    entries: Vec<TimerEntry>,
}

impl TimerListener {
    pub closed spec fn entries(&self) -> Seq<TimerEntry> {
        self.entries@
    }

    /// The timer's slot is still held by `t`.
    pub open spec fn live(&self, t: &Timer) -> bool {
        &&& 0 <= t.spec_index() < self.entries().len()
        &&& self.entries()[t.spec_index()].spec_open()
        &&& self.entries()[t.spec_index()].spec_generation() == t.spec_generation()
    }

    /// The deadline of the timer `t`.
    pub open spec fn deadline_of(&self, t: &Timer) -> u32 {
        self.entries()[t.spec_index()].deadline()
    }

    /// Only the entry of `index` may differ between `self` and `other`.
    pub open spec fn same_except(&self, other: &TimerListener, index: int) -> bool {
        &&& self.entries().len() == other.entries().len()
        &&& forall|j: int|
            0 <= j < self.entries().len() && j != index ==> #[trigger] self.entries()[j]
                == other.entries()[j]
    }

    /// `d` is the least sleep that lets an open timer fire on time at `now`.
    pub open spec fn is_nearest(&self, now: u32, d: u32) -> bool {
        &&& exists|i: int|
            0 <= i < self.entries().len() && (#[trigger] self.entries()[i]).spec_open() && d
                == sleep_for(self.entries()[i].deadline(), now)
        &&& forall|i: int|
            0 <= i < self.entries().len() && (#[trigger] self.entries()[i]).spec_open() ==> d
                <= sleep_for(self.entries()[i].deadline(), now)
    }

    /// Some open timer whose deadline has passed at `now` has a waker registered.
    pub open spec fn due_registered(&self, now: u32) -> bool {
        exists|i: int|
            0 <= i < self.entries().len() && (#[trigger] self.entries()[i]).spec_open()
                && self.entries()[i].registered() && tick_passed(now, self.entries()[i].deadline())
    }

    pub open spec fn has_timers(&self) -> bool {
        exists|i: int| 0 <= i < self.entries().len() && (#[trigger] self.entries()[i]).spec_open()
    }

    pub fn new() -> (r: TimerListener)
        ensures
            r.entries().len() == 0,
    {
        TimerListener { entries: Vec::new() }
    }

    /// Wakes every open timer whose deadline has passed at `now`.
    pub fn poll(&mut self, now: u32, marker: &mut WakeMarker)
        ensures
            timers_polled(*old(self), *final(self), now),
            final(marker)@ == (old(marker)@ || old(self).due_registered(now)),
    {
        let ghost start = self.entries@;
        let ghost start_marker = marker@;
        let mut i: usize = 0;
        while i < self.entries.len()
            invariant
                i <= self.entries@.len(),
                self.entries@.len() == start.len(),
                forall|j: int| i <= j < start.len() ==> #[trigger] self.entries@[j] == start[j],
                forall|j: int|
                    0 <= j < i ==> {
                        let b = start[j];
                        let a = #[trigger] self.entries@[j];
                        &&& a.open == b.open
                        &&& a.generation == b.generation
                        &&& a.at_tick == b.at_tick
                        &&& a.waker@ == (b.waker@ && !(b.open && tick_passed(now, b.at_tick)))
                    },
                marker@ == (start_marker || exists|j: int|
                    0 <= j < i && (#[trigger] start[j]).spec_open() && start[j].registered()
                        && tick_passed(now, start[j].deadline())),
            decreases self.entries@.len() - i,
        {
            if self.entries[i].open && has_time_passed(now, self.entries[i].at_tick) {
                self.entries[i].waker.wake(marker);
            }
            i = i + 1;
        }
        assert(start == old(self).entries());
    }

    /// The sleep to program so that the nearest open timer fires on time: the
    /// least `sleep_for` over the open timers, or `None` when there is none.
    pub fn config_sleep(&self, now: u32) -> (r: Option<u32>)
        ensures
            r.is_none() == !self.has_timers(),
            r matches Some(d) ==> self.is_nearest(now, d),
    {
        let mut best: Option<u32> = None;
        let mut i: usize = 0;
        while i < self.entries.len()
            invariant
                i <= self.entries@.len(),
                best.is_none() == !exists|j: int|
                    0 <= j < i && (#[trigger] self.entries()[j]).spec_open(),
                best matches Some(d) ==> {
                    &&& exists|j: int|
                        0 <= j < i && (#[trigger] self.entries()[j]).spec_open() && d == sleep_for(
                            self.entries()[j].deadline(),
                            now,
                        )
                    &&& forall|j: int|
                        0 <= j < i && (#[trigger] self.entries()[j]).spec_open() ==> d <= sleep_for(
                            self.entries()[j].deadline(),
                            now,
                        )
                },
            decreases self.entries@.len() - i,
        {
            if self.entries[i].open {
                let d = wrapping_tick_sub(self.entries[i].at_tick, now) % HALF_RANGE;
                assert(self.entries()[i as int].spec_open());
                match best {
                    Some(b) => {
                        if d < b {
                            best = Some(d);
                        }
                    },
                    None => {
                        best = Some(d);
                    },
                }
            }
            i = i + 1;
        }
        best
    }

    /// A timer that fires once the tick counter reaches `ticks`.
    pub fn sleep_until(&mut self, ticks: u32) -> (r: Timer)
        ensures
            final(self).live(&r),
            !old(self).live(&r),
            final(self).deadline_of(&r) == ticks,
            !final(self).entries()[r.spec_index()].registered(),
            old(self).entries().len() <= final(self).entries().len(),
            forall|j: int|
                0 <= j < old(self).entries().len() && j != r.spec_index() ==> #[trigger] final(self).entries()[j]
                    == old(self).entries()[j],
            forall|t: &Timer| old(self).live(t) ==> final(self).live(t),
    {
        let mut i: usize = 0;
        while i < self.entries.len()
            invariant
                i <= self.entries@.len(),
                *self == *old(self),
            decreases self.entries@.len() - i,
        {
            if !self.entries[i].open && self.entries[i].generation < u64::MAX {
                let generation = self.entries[i].generation + 1;
                self.entries[i] = TimerEntry {
                    generation,
                    open: true,
                    at_tick: ticks,
                    waker: WakerSlot::new(),
                };
                return Timer { index: i, generation };
            }
            i = i + 1;
        }
        let index = self.entries.len();
        self.entries.push(TimerEntry { generation: 0, open: true, at_tick: ticks, waker: WakerSlot::new() });
        Timer { index, generation: 0 }
    }

    /// A timer that fires `ticks` ticks after `now`.
    pub fn sleep_ticks(&mut self, now: u32, ticks: u32) -> (r: Timer)
        ensures
            final(self).live(&r),
            !old(self).live(&r),
            final(self).deadline_of(&r) == tick_add(now, ticks),
            !final(self).entries()[r.spec_index()].registered(),
            old(self).entries().len() <= final(self).entries().len(),
            forall|j: int|
                0 <= j < old(self).entries().len() && j != r.spec_index() ==> #[trigger] final(self).entries()[j]
                    == old(self).entries()[j],
            forall|t: &Timer| old(self).live(t) ==> final(self).live(t),
    {
        self.sleep_until(wrapping_tick_add(now, ticks))
    }

    /// A timer that fires after the span `dur`, counted from `now`.
    pub fn sleep(&mut self, now: u32, dur: Span) -> (r: Timer)
        ensures
            final(self).live(&r),
            !old(self).live(&r),
            final(self).deadline_of(&r) == tick_add(now, (dur.exact_ticks() % 0x1_0000_0000) as u32),
            old(self).entries().len() <= final(self).entries().len(),
            forall|j: int|
                0 <= j < old(self).entries().len() && j != r.spec_index() ==> #[trigger] final(self).entries()[j]
                    == old(self).entries()[j],
            forall|t: &Timer| old(self).live(t) ==> final(self).live(t),
    {
        self.sleep_ticks(now, dur.tick_count())
    }

    /// A timer that fires `ms` milliseconds after `now`.
    pub fn sleep_ms(&mut self, now: u32, ms: u32) -> (r: Timer)
        ensures
            final(self).live(&r),
            !old(self).live(&r),
            final(self).deadline_of(&r) == tick_add(now, ms_ticks(ms)),
            old(self).entries().len() <= final(self).entries().len(),
            forall|j: int|
                0 <= j < old(self).entries().len() && j != r.spec_index() ==> #[trigger] final(self).entries()[j]
                    == old(self).entries()[j],
            forall|t: &Timer| old(self).live(t) ==> final(self).live(t),
    {
        let ticks = millis_to_ticks(ms);
        self.sleep_ticks(now, ticks)
    }

    /// Releases the timer `t`; its slot may be reused.
    pub fn cancel(&mut self, t: Timer)
        requires
            old(self).live(&t),
        ensures
            !final(self).entries()[t.spec_index()].spec_open(),
            final(self).same_except(old(self), t.spec_index()),
    {
        self.entries[t.index].open = false;
    }
}

/// Ticks for `ms` milliseconds: 32768 a second and 33 a millisecond beyond.
pub open spec fn ms_ticks(ms: u32) -> u32 {
    tick_add(((ms / 1000) * TICKS_PER_SECOND as int % 0x1_0000_0000) as u32, ((ms % 1000) * 33) as u32)
}

/// Ticks for `ms` milliseconds, reduced modulo 2^32.
pub fn millis_to_ticks(ms: u32) -> (r: u32)
    ensures
        r == ms_ticks(ms),
{
    let secs = ms / 1000;
    let rest = ms % 1000;
    let r = wrapping_tick_add(secs.wrapping_mul(TICKS_PER_SECOND), rest * 33);
    assert(secs.wrapping_mul(TICKS_PER_SECOND) == ((ms / 1000) * TICKS_PER_SECOND as int % 0x1_0000_0000) as u32);
    r
}

impl Timer {
    /// The tick this timer fires at.
    pub fn at_tick(&self, listener: &TimerListener) -> (r: u32)
        requires
            listener.live(self),
        ensures
            r == listener.deadline_of(self),
    {
        listener.entries[self.index].at_tick
    }

    /// Moves the deadline to `ticks`; a timer that has fired fires again then.
    pub fn reschedule_at(&self, listener: &mut TimerListener, ticks: u32)
        requires
            old(listener).live(self),
        ensures
            final(listener).live(self),
            final(listener).deadline_of(self) == ticks,
            final(listener).entries()[self.spec_index()].registered() == old(listener).entries()[self.spec_index()].registered(),
            final(listener).same_except(old(listener), self.spec_index()),
    {
        listener.entries[self.index].at_tick = ticks;
    }

    /// Moves the deadline to `ticks` ticks after `now`.
    pub fn reschedule_ticks(&self, listener: &mut TimerListener, now: u32, ticks: u32)
        requires
            old(listener).live(self),
        ensures
            final(listener).live(self),
            final(listener).deadline_of(self) == tick_add(now, ticks),
            final(listener).entries()[self.spec_index()].registered() == old(listener).entries()[self.spec_index()].registered(),
            final(listener).same_except(old(listener), self.spec_index()),
    {
        self.reschedule_at(listener, wrapping_tick_add(now, ticks));
    }

    /// Moves the deadline to `ms` milliseconds after `now`.
    pub fn reschedule_ms(&self, listener: &mut TimerListener, now: u32, ms: u32)
        requires
            old(listener).live(self),
        ensures
            final(listener).live(self),
            final(listener).deadline_of(self) == tick_add(now, ms_ticks(ms)),
            final(listener).same_except(old(listener), self.spec_index()),
    {
        let ticks = millis_to_ticks(ms);
        self.reschedule_ticks(listener, now, ticks);
    }

    /// Moves the deadline to the span `dur` after `now`.
    pub fn reschedule(&self, listener: &mut TimerListener, now: u32, dur: Span)
        requires
            old(listener).live(self),
        ensures
            final(listener).live(self),
            final(listener).deadline_of(self) == tick_add(now, (dur.exact_ticks() % 0x1_0000_0000) as u32),
            final(listener).same_except(old(listener), self.spec_index()),
    {
        self.reschedule_ticks(listener, now, dur.tick_count());
    }

    /// Polls the timer at `now`: ready with the overshoot `now - deadline` (in
    /// ticks) once the deadline has passed; otherwise registers the waker.
    pub fn poll(&self, listener: &mut TimerListener, now: u32) -> (r: Poll<u32>)
        requires
            old(listener).live(self),
        ensures
            final(listener).live(self),
            final(listener).deadline_of(self) == old(listener).deadline_of(self),
            final(listener).same_except(old(listener), self.spec_index()),
            r == timer_outcome(old(listener).deadline_of(self), now),
            final(listener).entries()[self.spec_index()].registered() == (old(listener).entries()[self.spec_index()].registered()
                || !tick_passed(now, old(listener).deadline_of(self))),
    {
        let at = listener.entries[self.index].at_tick;
        if has_time_passed(now, at) {
            Poll::Ready(wrapping_tick_sub(now, at))
        } else {
            listener.entries[self.index].waker.register();
            Poll::Pending
        }
    }
}

/// What polling a timer due at `at_tick` yields at `now`.
pub open spec fn timer_outcome(at_tick: u32, now: u32) -> Poll<u32> {
    if tick_passed(now, at_tick) {
        Poll::Ready(tick_sub(now, at_tick))
    } else {
        Poll::Pending
    }
}

/// A timer that keeps re-triggering: each time it fires it is rescheduled one
/// interval after the tick at which it was polled, so a late poll yields one
/// event rather than a burst of them.
pub struct Interval {
    interval: u32,
    timer: Timer,
}

/// The deadline after an interval of `interval` ticks, due at `at_tick`, is
/// polled at `now`.
pub open spec fn next_deadline(at_tick: u32, interval: u32, now: u32) -> u32 {
    if tick_passed(now, at_tick) {
        tick_add(now, interval)
    } else {
        at_tick
    }
}

/// What polling an interval due at `at_tick` yields at `now`.
pub open spec fn interval_outcome(at_tick: u32, now: u32) -> Poll<Option<u32>> {
    if tick_passed(now, at_tick) {
        Poll::Ready(Some(tick_sub(now, at_tick)))
    } else {
        Poll::Pending
    }
}

impl Interval {
    pub closed spec fn spec_interval(&self) -> u32 {
        self.interval
    }

    pub closed spec fn timer(&self) -> Timer {
        self.timer
    }

    /// The timer behind the interval, to release it.
    pub fn into_timer(self) -> (r: Timer)
        ensures
            r == self.timer(),
    {
        self.timer
    }

    /// The interval, in ticks.
    pub fn interval_ticks(&self) -> (r: u32)
        ensures
            r == self.spec_interval(),
    {
        self.interval
    }

    /// The interval as a span of time.
    pub fn interval(&self) -> (r: Span)
        ensures
            (r.spec_secs(), r.spec_nanos()) == Span::spec_from_ticks(self.spec_interval()),
    {
        Span::from_tick_count(self.interval)
    }

    /// Changes the interval to `ticks` and reschedules the next event that
    /// many ticks after `now`.
    pub fn reschedule_ticks(&mut self, listener: &mut TimerListener, now: u32, ticks: u32)
        requires
            old(listener).live(&old(self).timer()),
        ensures
            final(self).timer() == old(self).timer(),
            final(self).spec_interval() == ticks,
            final(listener).live(&final(self).timer()),
            final(listener).deadline_of(&final(self).timer()) == tick_add(now, ticks),
            final(listener).same_except(old(listener), old(self).timer().spec_index()),
    {
        self.interval = ticks;
        self.timer.reschedule_ticks(listener, now, ticks);
    }

    /// Changes the interval to `ms` milliseconds and reschedules the next
    /// event that long after `now`.
    pub fn reschedule_ms(&mut self, listener: &mut TimerListener, now: u32, ms: u32)
        requires
            old(listener).live(&old(self).timer()),
        ensures
            final(self).timer() == old(self).timer(),
            final(self).spec_interval() == ms_ticks(ms),
            final(listener).live(&final(self).timer()),
            final(listener).deadline_of(&final(self).timer()) == tick_add(now, ms_ticks(ms)),
            final(listener).same_except(old(listener), old(self).timer().spec_index()),
    {
        let ticks = millis_to_ticks(ms);
        self.reschedule_ticks(listener, now, ticks);
    }

    /// Changes the interval to the span `dur` and reschedules the next event
    /// that long after `now`.
    pub fn reschedule(&mut self, listener: &mut TimerListener, now: u32, dur: Span)
        requires
            old(listener).live(&old(self).timer()),
        ensures
            final(self).timer() == old(self).timer(),
            final(self).spec_interval() == (dur.exact_ticks() % 0x1_0000_0000) as u32,
            final(listener).live(&final(self).timer()),
            final(listener).deadline_of(&final(self).timer()) == tick_add(now, final(self).spec_interval()),
            final(listener).same_except(old(listener), old(self).timer().spec_index()),
    {
        let ticks = dur.tick_count();
        self.reschedule_ticks(listener, now, ticks);
    }

    /// Polls the interval at `now`: once its deadline has passed, yields the
    /// overshoot in ticks and reschedules one interval after `now`; otherwise
    /// registers the waker. The stream never ends.
    pub fn poll_next(&self, listener: &mut TimerListener, now: u32) -> (r: Poll<Option<u32>>)
        requires
            old(listener).live(&self.timer()),
        ensures
            final(listener).live(&self.timer()),
            r == interval_outcome(old(listener).deadline_of(&self.timer()), now),
            final(listener).deadline_of(&self.timer()) == next_deadline(
                old(listener).deadline_of(&self.timer()),
                self.spec_interval(),
                now,
            ),
            final(listener).same_except(old(listener), self.timer().spec_index()),
    {
        match self.timer.poll(listener, now) {
            Poll::Ready(late) => {
                self.timer.reschedule_ticks(listener, now, self.interval);
                Poll::Ready(Some(late))
            },
            Poll::Pending => Poll::Pending,
        }
    }
}

impl TimerListener {
    /// An interval that first fires `ticks` ticks after `now`, then every
    /// `ticks` ticks after each poll that sees it fire.
    pub fn every_ticks(&mut self, now: u32, ticks: u32) -> (r: Interval)
        ensures
            final(self).live(&r.timer()),
            !old(self).live(&r.timer()),
            r.spec_interval() == ticks,
            final(self).deadline_of(&r.timer()) == tick_add(now, ticks),
            forall|t: &Timer| old(self).live(t) ==> final(self).live(t),
    {
        let timer = self.sleep_ticks(now, ticks);
        Interval { interval: ticks, timer }
    }

    /// An interval of `hz` events a second.
    pub fn every_hz(&mut self, now: u32, hz: u32) -> (r: Interval)
        requires
            hz > 0,
        ensures
            final(self).live(&r.timer()),
            !old(self).live(&r.timer()),
            r.spec_interval() == TICKS_PER_SECOND / hz,
            final(self).deadline_of(&r.timer()) == tick_add(now, (TICKS_PER_SECOND / hz) as u32),
            forall|t: &Timer| old(self).live(t) ==> final(self).live(t),
    {
        self.every_ticks(now, TICKS_PER_SECOND / hz)
    }

    /// An interval of `ms` milliseconds.
    pub fn every_ms(&mut self, now: u32, ms: u32) -> (r: Interval)
        ensures
            final(self).live(&r.timer()),
            !old(self).live(&r.timer()),
            r.spec_interval() == ms_ticks(ms),
            final(self).deadline_of(&r.timer()) == tick_add(now, ms_ticks(ms)),
            forall|t: &Timer| old(self).live(t) ==> final(self).live(t),
    {
        let ticks = millis_to_ticks(ms);
        self.every_ticks(now, ticks)
    }

    /// An interval of the span `dur`.
    pub fn every(&mut self, now: u32, dur: Span) -> (r: Interval)
        ensures
            final(self).live(&r.timer()),
            !old(self).live(&r.timer()),
            r.spec_interval() == (dur.exact_ticks() % 0x1_0000_0000) as u32,
            final(self).deadline_of(&r.timer()) == tick_add(now, r.spec_interval()),
            forall|t: &Timer| old(self).live(t) ==> final(self).live(t),
    {
        let ticks = dur.tick_count();
        self.every_ticks(now, ticks)
    }

    /// A timeout that expires once the tick counter reaches `ticks`.
    pub fn timeout_until(&mut self, ticks: u32) -> (r: Timeout)
        ensures
            final(self).live(&r.timer()),
            !old(self).live(&r.timer()),
            final(self).deadline_of(&r.timer()) == ticks,
            forall|t: &Timer| old(self).live(t) ==> final(self).live(t),
    {
        Timeout { timer: self.sleep_until(ticks) }
    }

    /// A timeout that expires `ticks` ticks after `now`.
    pub fn timeout_ticks(&mut self, now: u32, ticks: u32) -> (r: Timeout)
        ensures
            final(self).live(&r.timer()),
            !old(self).live(&r.timer()),
            final(self).deadline_of(&r.timer()) == tick_add(now, ticks),
            forall|t: &Timer| old(self).live(t) ==> final(self).live(t),
    {
        Timeout { timer: self.sleep_ticks(now, ticks) }
    }

    /// A timeout that expires `ms` milliseconds after `now`.
    pub fn timeout_ms(&mut self, now: u32, ms: u32) -> (r: Timeout)
        ensures
            final(self).live(&r.timer()),
            !old(self).live(&r.timer()),
            final(self).deadline_of(&r.timer()) == tick_add(now, ms_ticks(ms)),
            forall|t: &Timer| old(self).live(t) ==> final(self).live(t),
    {
        Timeout { timer: self.sleep_ms(now, ms) }
    }

    /// A timeout that expires the span `dur` after `now`.
    pub fn timeout(&mut self, now: u32, dur: Span) -> (r: Timeout)
        ensures
            final(self).live(&r.timer()),
            !old(self).live(&r.timer()),
            final(self).deadline_of(&r.timer()) == tick_add(now, (dur.exact_ticks() % 0x1_0000_0000) as u32),
            forall|t: &Timer| old(self).live(t) ==> final(self).live(t),
    {
        Timeout { timer: self.sleep(now, dur) }
    }
}

/// Races a future against a deadline: the future's output wins if it is ready
/// when polled, the deadline otherwise.
pub struct Timeout {
    timer: Timer,
}

/// What a timeout yields at `now` when the raced future polled as `inner`.
pub open spec fn timeout_outcome<T>(inner: Poll<T>, at_tick: u32, now: u32) -> Poll<Result<T, TimeoutError>> {
    match inner {
        Poll::Ready(x) => Poll::Ready(Ok(x)),
        Poll::Pending => if tick_passed(now, at_tick) {
            Poll::Ready(Err(TimeoutError))
        } else {
            Poll::Pending
        },
    }
}

impl Timeout {
    pub closed spec fn timer(&self) -> Timer {
        self.timer
    }

    /// The timer behind the deadline, to release it once the race is over.
    pub fn into_timer(self) -> (r: Timer)
        ensures
            r == self.timer(),
    {
        self.timer
    }

    /// Settles the race at `now`, given how the raced future just polled: its
    /// output if it is ready, the timeout error if the deadline has passed,
    /// and nothing yet otherwise.
    pub fn poll<T>(&self, listener: &mut TimerListener, now: u32, inner: Poll<T>) -> (r: Poll<Result<T, TimeoutError>>)
        requires
            old(listener).live(&self.timer()),
        ensures
            final(listener).live(&self.timer()),
            r == timeout_outcome(inner, old(listener).deadline_of(&self.timer()), now),
            final(listener).deadline_of(&self.timer()) == old(listener).deadline_of(&self.timer()),
            final(listener).same_except(old(listener), self.timer().spec_index()),
    {
        match inner {
            Poll::Ready(x) => Poll::Ready(Ok(x)),
            Poll::Pending => match self.timer.poll(listener, now) {
                Poll::Ready(_) => Poll::Ready(Err(TimeoutError)),
                Poll::Pending => Poll::Pending,
            },
        }
    }
}

/// However late an interval is polled, one poll yields one event: after it
/// fires at `now`, its next deadline is one interval after `now`, a second poll
/// at the same tick yields nothing, and it fires again exactly when a full
/// interval has gone by.
pub proof fn lemma_interval_no_burst(at_tick: u32, interval: u32, now: u32, k: u32)
    requires
        tick_passed(now, at_tick),
        0 < interval < HALF_RANGE,
    ensures
        next_deadline(at_tick, interval, now) == tick_add(now, interval),
        interval_outcome(next_deadline(at_tick, interval, now), now) == Poll::<Option<u32>>::Pending,
        interval_outcome(next_deadline(at_tick, interval, now), tick_add(now, k)).spec_is_ready() <==> (
        interval <= k && k < interval + HALF_RANGE),
{
    lemma_wrap(now + interval);
    let d = tick_add(now, interval);
    lemma_wrap(now - d);
    lemma_wrap(now + k);
    let later = tick_add(now, k);
    lemma_wrap(later - d);
}

} // verus!
