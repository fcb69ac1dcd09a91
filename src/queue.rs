//! A first-in, first-out queue with a fixed capacity that refuses, rather than
//! grows, when it is full.
use std::collections::VecDeque;
use vstd::prelude::*;

verus! {

pub struct BoundedQueue<T> {
    items: VecDeque<T>,
    capacity: usize,
}

impl<T> View for BoundedQueue<T> {
    type V = Seq<T>;

    closed spec fn view(&self) -> Seq<T> {
        self.items@
    }
}

/// The queue after offering `v`: it is appended when there is room, and the
/// queue is left as it was when it is full.
pub open spec fn offer<T>(items: Seq<T>, capacity: nat, v: T) -> Seq<T> {
    if items.len() < capacity {
        items.push(v)
    } else {
        items
    }
}

/// The queue after offering each of `vs` in turn.
pub open spec fn offer_all<T>(items: Seq<T>, capacity: nat, vs: Seq<T>) -> Seq<T>
    decreases vs.len(),
{
    if vs.len() == 0 {
        items
    } else {
        offer(offer_all(items, capacity, vs.drop_last()), capacity, vs.last())
    }
}

/// Offering items one by one keeps the longest prefix of `items + vs` that
/// fits: nothing is reordered, and once one item is refused so are the rest.
pub proof fn lemma_offer_all_prefix<T>(items: Seq<T>, capacity: nat, vs: Seq<T>)
    requires
        items.len() <= capacity,
    ensures
        offer_all(items, capacity, vs) == (items + vs).take(
            if items.len() + vs.len() <= capacity {
                (items.len() + vs.len()) as int
            } else {
                capacity as int
            },
        ),
    decreases vs.len(),
{
    if vs.len() == 0 {
        assert((items + vs).take(items.len() as int) =~= items);
    } else {
        lemma_offer_all_prefix(items, capacity, vs.drop_last());
        assert((items + vs.drop_last()) =~= (items + vs).drop_last());
        let before = offer_all(items, capacity, vs.drop_last());
        if items.len() + vs.len() <= capacity {
            assert(before.push(vs.last()) =~= (items + vs).take((items.len() + vs.len()) as int));
        } else {
            assert(before =~= (items + vs).take(capacity as int));
        }
    }
}

impl<T> BoundedQueue<T> {
    /// The number of items the queue holds at most.
    pub closed spec fn spec_capacity(&self) -> nat {
        self.capacity as nat
    }

    /// The queue holds no more than its capacity, which is not zero.
    pub open spec fn wf(&self) -> bool {
        &&& self@.len() <= self.spec_capacity()
        &&& self.spec_capacity() > 0
    }

    pub fn new(capacity: usize) -> (r: Self)
        requires
            capacity > 0,
        ensures
            r.wf(),
            r@ == Seq::<T>::empty(),
            r.spec_capacity() == capacity,
    {
        BoundedQueue { items: VecDeque::new(), capacity }
    }

    pub fn capacity(&self) -> (r: usize)
        ensures
            r == self.spec_capacity(),
    {
        self.capacity
    }

    pub fn len(&self) -> (r: usize)
        requires
            self.wf(),
        ensures
            r == self@.len(),
            r <= self.spec_capacity(),
    {
        self.items.len()
    }

    pub fn is_empty(&self) -> (r: bool)
        ensures
            r == (self@.len() == 0),
    {
        self.items.len() == 0
    }

    pub fn is_full(&self) -> (r: bool)
        requires
            self.wf(),
        ensures
            r == (self@.len() == self.spec_capacity()),
    {
        self.items.len() == self.capacity
    }

    /// Appends `v` if there is room; hands it back otherwise.
    pub fn push(&mut self, v: T) -> (r: Result<(), T>)
        requires
            old(self).wf(),
        ensures
            final(self).wf(),
            final(self).spec_capacity() == old(self).spec_capacity(),
            final(self)@ == offer(old(self)@, old(self).spec_capacity(), v),
            r == (if old(self)@.len() < old(self).spec_capacity() {
                Ok::<(), T>(())
            } else {
                Err(v)
            }),
    {
        if self.items.len() < self.capacity {
            self.items.push_back(v);
            Ok(())
        } else {
            Err(v)
        }
    }

    /// Removes and returns the oldest item, if any.
    pub fn pop(&mut self) -> (r: Option<T>)
        requires
            old(self).wf(),
        ensures
            final(self).wf(),
            final(self).spec_capacity() == old(self).spec_capacity(),
            old(self)@.len() == 0 ==> r.is_none() && final(self)@ == old(self)@,
            old(self)@.len() > 0 ==> r == Some(old(self)@[0]) && final(self)@
                == old(self)@.drop_first(),
    {
        self.items.pop_front()
    }
}

} // verus!
