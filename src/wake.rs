//! The wake marker that tells the executor to poll its task again, and the
//! single-slot waker registration that event sources hold.
use vstd::prelude::*;

verus! {

/// A boolean flag, not a counter: set by any wake, cleared by the executor
/// just before it polls the task.
pub struct WakeMarker {
    runnable: bool,
}

impl View for WakeMarker {
    type V = bool;

    closed spec fn view(&self) -> bool {
        self.runnable
    }
}

/// The marker after one wake.
pub open spec fn wake_step(runnable: bool) -> bool {
    true
}

/// The marker after `n` wakes in a row.
pub open spec fn wake_times(runnable: bool, n: nat) -> bool
    decreases n,
{
    if n == 0 {
        runnable
    } else {
        wake_step(wake_times(runnable, (n - 1) as nat))
    }
}

/// Waking any number of times (at least once) before the next poll has the
/// same effect as waking once.
pub proof fn lemma_wake_idempotent(runnable: bool, n: nat)
    requires
        n >= 1,
    ensures
        wake_times(runnable, n) == wake_times(runnable, 1),
        wake_times(runnable, n) == wake_step(runnable),
    decreases n,
{
    if n > 1 {
        lemma_wake_idempotent(runnable, (n - 1) as nat);
    }
}

impl WakeMarker {
    /// A new marker starts runnable, so that the task is polled at least once.
    pub fn new() -> (r: WakeMarker)
        ensures
            r@,
    {
        WakeMarker { runnable: true }
    }

    pub fn wake(&mut self)
        ensures
            final(self)@ == wake_step(old(self)@),
    {
        self.runnable = true;
    }

    pub fn is_runnable(&self) -> (r: bool)
        ensures
            r == self@,
    {
        self.runnable
    }

    /// Reads the marker and clears it, as the executor does right before a poll.
    pub fn take(&mut self) -> (r: bool)
        ensures
            r == old(self)@,
            !final(self)@,
    {
        let r = self.runnable;
        self.runnable = false;
        r
    }
}

/// Holds at most one registered waker; registering again replaces it, and
/// waking consumes it.
pub struct WakerSlot {
    registered: bool,
}

impl View for WakerSlot {
    type V = bool;

    /// Whether a waker is registered.
    closed spec fn view(&self) -> bool {
        self.registered
    }
}

impl WakerSlot {
    pub fn new() -> (r: WakerSlot)
        ensures
            !r@,
    {
        WakerSlot { registered: false }
    }

    /// Registers the task's waker; the last registration wins.
    pub fn register(&mut self)
        ensures
            final(self)@,
    {
        self.registered = true;
    }

    /// Wakes the registered waker, if any, and empties the slot.
    pub fn wake(&mut self, marker: &mut WakeMarker)
        ensures
            !final(self)@,
            final(marker)@ == (old(marker)@ || old(self)@),
    {
        if self.registered {
            self.registered = false;
            marker.wake();
        }
    }
}

} // verus!

verus! {

/// The outcome of polling a future or a stream once.
#[derive(Debug, PartialEq, Eq)]
pub enum Poll<T> {
    Ready(T),
    Pending,
}

impl<T> Poll<T> {
    pub open spec fn spec_is_ready(&self) -> bool {
        self is Ready
    }

    pub fn is_ready(&self) -> (r: bool)
        ensures
            r == self.spec_is_ready(),
    {
        match self {
            Poll::Ready(_) => true,
            Poll::Pending => false,
        }
    }

    pub fn is_pending(&self) -> (r: bool)
        ensures
            r == !self.spec_is_ready(),
    {
        match self {
            Poll::Ready(_) => false,
            Poll::Pending => true,
        }
    }
}

} // verus!
