//! The executor's decisions: when to poll the task, and how to sleep when it
//! is waiting. An outer loop performs what each step asks for.
use crate::input::Key;
use crate::keypad::{keypad_polled, KeyEvent, KeyStream, KeypadListener};
use crate::mpsc::{send_accepted, Channel};
use crate::queue::offer;
use crate::timer::{timers_polled, TimerListener};
use crate::wake::WakeMarker;
use crate::yield_now::{yields_polled, Yield, YieldListener};
use vstd::prelude::*;

verus! {

/// How to program the hardware sleep timer before idling.
#[derive(PartialEq, Eq, Structural, Clone, Copy, Debug)]
pub enum SleepPlan {
    /// Keypad sampling must run at full rate: restore the normal timer.
    Disable,
    /// Sleep at most this many ticks, until the nearest timer is due.
    Ticks(u32),
    /// Nothing is scheduled: leave the sleep timer as it is.
    Keep,
}

/// What the driving loop does next.
#[derive(PartialEq, Eq, Structural, Clone, Copy, Debug)]
pub enum Step {
    /// Poll the task; the wake marker has been cleared.
    PollTask,
    /// Program the sleep timer as planned, then wait for an interrupt.
    Idle(SleepPlan),
}

/// The step the executor takes with the wake marker at `runnable`, idling
/// with `plan` when it is not set.
pub open spec fn step_for(runnable: bool, plan: SleepPlan) -> Step {
    if runnable {
        Step::PollTask
    } else {
        Step::Idle(plan)
    }
}

/// The event sources: keypad, timers and yields.
pub struct AsyncListeners {
    pub keypad: KeypadListener,
    pub timer: TimerListener,
    pub yielder: YieldListener,
}

impl AsyncListeners {
    pub open spec fn wf(&self) -> bool {
        self.keypad.wf()
    }

    pub fn new() -> (r: AsyncListeners)
        ensures
            r.wf(),
            r.keypad.slots().len() == 0,
            r.timer.entries().len() == 0,
            r.yielder.entries().len() == 0,
    {
        AsyncListeners {
            keypad: KeypadListener::new(),
            timer: TimerListener::new(),
            yielder: YieldListener::new(),
        }
    }

    /// A new keypad stream; every task holding one sees every event.
    pub fn keypad(&mut self) -> (r: KeyStream)
        requires
            old(self).wf(),
        ensures
            final(self).wf(),
            final(self).keypad.live(&r),
            final(self).keypad.stream_events(&r) == Seq::<KeyEvent>::empty(),
            forall|s: &KeyStream| old(self).keypad.live(s) ==> final(self).keypad.live(s),
            final(self).timer == old(self).timer,
            final(self).yielder == old(self).yielder,
    {
        self.keypad.stream()
    }

    /// Lets other tasks run before this one continues.
    pub fn yield_now(&mut self) -> (r: Yield)
        ensures
            final(self).yielder.live(&r),
            !final(self).yielder.is_done(&r),
            forall|y: &Yield| old(self).yielder.live(y) ==> final(self).yielder.live(y),
            final(self).keypad == old(self).keypad,
            final(self).timer == old(self).timer,
    {
        self.yielder.yield_now()
    }

    /// `plan` is the sleep to program at `now`: none while a keypad
    /// subscription is open, otherwise until the nearest timer, if any.
    pub open spec fn plans(&self, now: u32, plan: SleepPlan) -> bool {
        if self.keypad.has_subscribers() {
            plan == SleepPlan::Disable
        } else if !self.timer.has_timers() {
            plan == SleepPlan::Keep
        } else {
            plan matches SleepPlan::Ticks(d) && self.timer.is_nearest(now, d)
        }
    }

    /// The sleep to program before idling at `now`.
    pub fn sleep_plan(&self, now: u32) -> (r: SleepPlan)
        ensures
            self.plans(now, r),
    {
        if self.keypad.is_listening() {
            SleepPlan::Disable
        } else {
            let nearest = self.timer.config_sleep(now);
            match nearest {
                Some(d) => SleepPlan::Ticks(d),
                None => SleepPlan::Keep,
            }
        }
    }
}

/// Drives one task: holds the wake marker, and decides each step.
pub struct Executor {
    marker: WakeMarker,
}

impl Executor {
    pub closed spec fn runnable(&self) -> bool {
        self.marker@
    }

    /// A new executor is runnable, so the task is polled at least once.
    pub fn new() -> (r: Executor)
        ensures
            r.runnable(),
    {
        Executor { marker: WakeMarker::new() }
    }

    /// Sets the wake marker, as the task's waker does.
    pub fn wake(&mut self)
        ensures
            final(self).runnable(),
    {
        self.marker.wake();
    }

    /// Sends `data` on `channel` from within the task, waking the task if it
    /// waits on the channel's receiving side.
    pub fn send<T>(&mut self, channel: &mut Channel<T>, data: T) -> (r: Result<(), T>)
        requires
            old(channel).wf(),
            old(channel).sender_count() > 0,
        ensures
            final(channel).wf(),
            final(channel).spec_capacity() == old(channel).spec_capacity(),
            final(channel).sender_count() == old(channel).sender_count(),
            final(channel).items() == offer(old(channel).items(), old(channel).spec_capacity(), data),
            r == (if send_accepted(old(channel).items(), old(channel).spec_capacity()) {
                Ok::<(), T>(())
            } else {
                Err(data)
            }),
            final(self).runnable() == (old(self).runnable() || old(channel).receiver_registered()),
    {
        channel.send(data, &mut self.marker)
    }

    /// Polls every reactor once, in the fixed order keypad, timers, yields,
    /// at tick `now` with the keys sampled as `sample`. Returns the keypad
    /// events. Reactors may only set the wake marker, never clear it.
    pub fn poll_reactors(&mut self, listeners: &mut AsyncListeners, now: u32, sample: &Vec<Key>) -> (events: Vec<KeyEvent>)
        requires
            old(listeners).wf(),
            sample@.no_duplicates(),
        ensures
            final(listeners).wf(),
            keypad_polled(old(listeners).keypad, final(listeners).keypad, sample@, events@),
            timers_polled(old(listeners).timer, final(listeners).timer, now),
            yields_polled(old(listeners).yielder, final(listeners).yielder),
            final(self).runnable() == (old(self).runnable() || (events@.len() > 0
                && old(listeners).keypad.any_registered()) || old(listeners).timer.due_registered(now)
                || old(listeners).yielder.any_registered()),
    {
        let events = listeners.keypad.poll(sample, &mut self.marker);
        listeners.timer.poll(now, &mut self.marker);
        listeners.yielder.poll(&mut self.marker);
        events
    }

    /// Decides the next step at `now`: poll the task if it was woken (clearing
    /// the marker first, so that a wake during the poll is kept), otherwise
    /// idle with the sleep plan of the listeners.
    pub fn next_step(&mut self, listeners: &AsyncListeners, now: u32) -> (r: Step)
        ensures
            !final(self).runnable(),
            old(self).runnable() ==> r == Step::PollTask,
            !old(self).runnable() ==> (r matches Step::Idle(plan) && r == step_for(false, plan)
                && listeners.plans(now, plan)),
    {
        if self.marker.take() {
            Step::PollTask
        } else {
            Step::Idle(listeners.sleep_plan(now))
        }
    }
}

/// The task is polled at least once: a new executor is runnable, and since
/// a reactor pass only ever sets the marker, the first decision after it is to
/// poll the task, even if no reactor fired.
pub proof fn lemma_first_step_polls(
    fresh: Executor,
    polled: Executor,
    fired: bool,
    plan: SleepPlan,
)
    requires
        fresh.runnable(),
        polled.runnable() == (fresh.runnable() || fired),
    ensures
        step_for(polled.runnable(), plan) == Step::PollTask,
{
}

} // verus!
