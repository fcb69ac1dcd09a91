//! The yield reactor: lets a task step aside for one pass of the executor
//! without spending any time.
use crate::wake::{Poll, WakeMarker, WakerSlot};
use vstd::prelude::*;

verus! {

/// One pending yield: done once the reactor has passed over it.
pub struct YieldEntry {
    generation: u64,
    open: bool,
    done: bool,
    waker: WakerSlot,
}

impl YieldEntry {
    pub closed spec fn spec_generation(&self) -> u64 {
        self.generation
    }

    pub closed spec fn spec_open(&self) -> bool {
        self.open
    }

    pub closed spec fn spec_done(&self) -> bool {
        self.done
    }

    pub closed spec fn registered(&self) -> bool {
        self.waker@
    }
}

/// A handle on one yield of a [`YieldListener`].
pub struct Yield {
    index: usize,
    generation: u64,
}

impl Yield {
    pub closed spec fn spec_index(&self) -> int {
        self.index as int
    }

    pub closed spec fn spec_generation(&self) -> u64 {
        self.generation
    }
}

/// What one reactor pass does to the yields: every open one is marked done and
/// woken, and nothing else changes.
pub open spec fn yields_polled(before: YieldListener, after: YieldListener) -> bool {
    &&& after.entries().len() == before.entries().len()
    &&& forall|i: int|
        0 <= i < before.entries().len() ==> {
            let b = before.entries()[i];
            let a = #[trigger] after.entries()[i];
            &&& a.spec_open() == b.spec_open()
            &&& a.spec_generation() == b.spec_generation()
            &&& a.spec_done() == (b.spec_done() || b.spec_open())
            &&& a.registered() == (b.registered() && !b.spec_open())
        }
}

pub struct YieldListener {
    entries: Vec<YieldEntry>,
}

impl YieldListener {
    pub closed spec fn entries(&self) -> Seq<YieldEntry> {
        self.entries@
    }

    pub open spec fn live(&self, y: &Yield) -> bool {
        &&& 0 <= y.spec_index() < self.entries().len()
        &&& self.entries()[y.spec_index()].spec_open()
        &&& self.entries()[y.spec_index()].spec_generation() == y.spec_generation()
    }

    /// Some open yield has a waker registered.
    pub open spec fn any_registered(&self) -> bool {
        exists|i: int|
            0 <= i < self.entries().len() && (#[trigger] self.entries()[i]).spec_open()
                && self.entries()[i].registered()
    }

    pub open spec fn is_done(&self, y: &Yield) -> bool {
        self.entries()[y.spec_index()].spec_done()
    }

    /// Only the entry of `index` may differ between `self` and `other`.
    pub open spec fn same_except(&self, other: &YieldListener, index: int) -> bool {
        &&& self.entries().len() == other.entries().len()
        &&& forall|j: int|
            0 <= j < self.entries().len() && j != index ==> #[trigger] self.entries()[j]
                == other.entries()[j]
    }

    pub fn new() -> (r: YieldListener)
        ensures
            r.entries().len() == 0,
    {
        YieldListener { entries: Vec::new() }
    }

    /// Marks every open yield done and wakes it.
    pub fn poll(&mut self, marker: &mut WakeMarker)
        ensures
            yields_polled(*old(self), *final(self)),
            final(marker)@ == (old(marker)@ || old(self).any_registered()),
    {
        let ghost start = self.entries@;
        let ghost start_marker = marker@;
        let mut i: usize = 0;
        while i < self.entries.len()
            invariant
                i <= self.entries@.len(),
                self.entries@.len() == start.len(),
                forall|j: int| i <= j < start.len() ==> #[trigger] self.entries@[j] == start[j],
                forall|j: int|
                    0 <= j < i ==> {
                        let b = start[j];
                        let a = #[trigger] self.entries@[j];
                        &&& a.spec_open() == b.spec_open()
                        &&& a.spec_generation() == b.spec_generation()
                        &&& a.spec_done() == (b.spec_done() || b.spec_open())
                        &&& a.registered() == (b.registered() && !b.spec_open())
                    },
                marker@ == (start_marker || exists|j: int|
                    0 <= j < i && (#[trigger] start[j]).spec_open() && start[j].registered()),
            decreases self.entries@.len() - i,
        {
            if self.entries[i].open {
                self.entries[i].done = true;
                self.entries[i].waker.wake(marker);
            }
            i = i + 1;
        }
        assert(start == old(self).entries());
    }

    /// A yield that is pending until the reactor's next pass.
    pub fn yield_now(&mut self) -> (r: Yield)
        ensures
            final(self).live(&r),
            !old(self).live(&r),
            !final(self).is_done(&r),
            !final(self).entries()[r.spec_index()].registered(),
            old(self).entries().len() <= final(self).entries().len(),
            forall|j: int|
                0 <= j < old(self).entries().len() && j != r.spec_index() ==> #[trigger] final(self).entries()[j]
                    == old(self).entries()[j],
            forall|y: &Yield| old(self).live(y) ==> final(self).live(y),
    {
        let mut i: usize = 0;
        while i < self.entries.len()
            invariant
                i <= self.entries@.len(),
                *self == *old(self),
            decreases self.entries@.len() - i,
        {
            if !self.entries[i].open && self.entries[i].generation < u64::MAX {
                let generation = self.entries[i].generation + 1;
                self.entries[i] = YieldEntry { generation, open: true, done: false, waker: WakerSlot::new() };
                return Yield { index: i, generation };
            }
            i = i + 1;
        }
        let index = self.entries.len();
        self.entries.push(YieldEntry { generation: 0, open: true, done: false, waker: WakerSlot::new() });
        Yield { index, generation: 0 }
    }

    /// Releases the yield `y`; its slot may be reused.
    pub fn finish(&mut self, y: Yield)
        requires
            old(self).live(&y),
        ensures
            !final(self).entries()[y.spec_index()].spec_open(),
            final(self).same_except(old(self), y.spec_index()),
    {
        self.entries[y.index].open = false;
    }
}

impl Yield {
    /// Ready once the reactor has passed over this yield; otherwise registers
    /// the waker.
    pub fn poll(&self, listener: &mut YieldListener) -> (r: Poll<()>)
        requires
            old(listener).live(self),
        ensures
            final(listener).live(self),
            final(listener).is_done(self) == old(listener).is_done(self),
            r == (if old(listener).is_done(self) {
                Poll::Ready(())
            } else {
                Poll::Pending
            }),
            final(listener).entries()[self.spec_index()].registered() == (old(listener).entries()[self.spec_index()].registered()
                || !old(listener).is_done(self)),
            final(listener).same_except(old(listener), self.spec_index()),
    {
        if listener.entries[self.index].done {
            Poll::Ready(())
        } else {
            listener.entries[self.index].waker.register();
            Poll::Pending
        }
    }
}

} // verus!
