//! A bounded multi-producer, single-consumer channel between tasks.
//!
//! The channel owns its queue, the count of live sending handles and the
//! receiver's waker slot. Sending never blocks: a full channel hands the value
//! back. Once every sender is gone and the queue is drained, the receiving side
//! reports the end of the stream, and keeps doing so.
use crate::queue::{offer, BoundedQueue};
use crate::wake::{Poll, WakeMarker, WakerSlot};
use vstd::prelude::*;

verus! {

pub struct Channel<T> {
    queue: BoundedQueue<T>,
    senders: usize,
    waker: WakerSlot,
}

/// What a receiver's poll yields on the queued `items` with `senders` live
/// senders: the oldest item, the end of the stream, or nothing yet.
pub open spec fn receive_outcome<T>(items: Seq<T>, senders: nat) -> Poll<Option<T>> {
    if items.len() > 0 {
        Poll::Ready(Some(items[0]))
    } else if senders == 0 {
        Poll::Ready(None)
    } else {
        Poll::Pending
    }
}

/// The queued items after a receiver's poll.
pub open spec fn after_receive<T>(items: Seq<T>) -> Seq<T> {
    if items.len() > 0 {
        items.drop_first()
    } else {
        items
    }
}

/// Whether a send of one more item is accepted.
pub open spec fn send_accepted<T>(items: Seq<T>, capacity: nat) -> bool {
    items.len() < capacity
}

/// Creates a channel that buffers at most `buffer` items, with one sender.
pub fn channel<T>(buffer: usize) -> (r: Channel<T>)
    requires
        buffer > 0,
    ensures
        r.wf(),
        r.items() == Seq::<T>::empty(),
        r.spec_capacity() == buffer,
        r.sender_count() == 1,
        !r.receiver_registered(),
{
    Channel { queue: BoundedQueue::new(buffer), senders: 1, waker: WakerSlot::new() }
}

impl<T> Channel<T> {
    pub closed spec fn items(&self) -> Seq<T> {
        self.queue@
    }

    pub closed spec fn spec_capacity(&self) -> nat {
        self.queue.spec_capacity()
    }

    pub closed spec fn sender_count(&self) -> nat {
        self.senders as nat
    }

    pub closed spec fn receiver_registered(&self) -> bool {
        self.waker@
    }

    pub open spec fn wf(&self) -> bool {
        &&& self.items().len() <= self.spec_capacity()
        &&& self.spec_capacity() > 0
    }

    /// Queues `data` if there is room, handing it back otherwise. The receiver's
    /// waker is woken either way.
    pub fn send(&mut self, data: T, marker: &mut WakeMarker) -> (r: Result<(), T>)
        requires
            old(self).wf(),
            old(self).sender_count() > 0,
        ensures
            final(self).wf(),
            final(self).spec_capacity() == old(self).spec_capacity(),
            final(self).sender_count() == old(self).sender_count(),
            final(self).items() == offer(old(self).items(), old(self).spec_capacity(), data),
            r == (if send_accepted(old(self).items(), old(self).spec_capacity()) {
                Ok::<(), T>(())
            } else {
                Err(data)
            }),
            !final(self).receiver_registered(),
            final(marker)@ == (old(marker)@ || old(self).receiver_registered()),
    {
        self.waker.wake(marker);
        self.queue.push(data)
    }

    /// The number of live senders.
    pub fn senders(&self) -> (r: usize)
        ensures
            r == self.sender_count(),
    {
        self.senders
    }

    pub fn capacity(&self) -> (r: usize)
        ensures
            r == self.spec_capacity(),
    {
        self.queue.capacity()
    }

    pub fn is_empty(&self) -> (r: bool)
        ensures
            r == (self.items().len() == 0),
    {
        self.queue.is_empty()
    }

    pub fn is_full(&self) -> (r: bool)
        requires
            self.wf(),
        ensures
            r == (self.items().len() == self.spec_capacity()),
    {
        self.queue.is_full()
    }

    pub fn len(&self) -> (r: usize)
        requires
            self.wf(),
        ensures
            r == self.items().len(),
    {
        self.queue.len()
    }

    /// Makes one more sender out of an existing one.
    pub fn clone_sender(&mut self)
        requires
            old(self).sender_count() > 0,
            old(self).sender_count() < usize::MAX,
        ensures
            final(self).items() == old(self).items(),
            final(self).spec_capacity() == old(self).spec_capacity(),
            final(self).sender_count() == old(self).sender_count() + 1,
            final(self).receiver_registered() == old(self).receiver_registered(),
    {
        self.senders = self.senders + 1;
    }

    /// Drops one sender.
    pub fn drop_sender(&mut self)
        requires
            old(self).sender_count() > 0,
        ensures
            final(self).items() == old(self).items(),
            final(self).spec_capacity() == old(self).spec_capacity(),
            final(self).sender_count() == old(self).sender_count() - 1,
            final(self).receiver_registered() == old(self).receiver_registered(),
    {
        self.senders = self.senders - 1;
    }

    /// Polls the receiving side: registers its waker, then yields the oldest
    /// item, or the end of the stream when no sender is left and nothing is
    /// queued, or nothing yet.
    pub fn poll_next(&mut self) -> (r: Poll<Option<T>>)
        requires
            old(self).wf(),
        ensures
            final(self).wf(),
            r == receive_outcome(old(self).items(), old(self).sender_count()),
            final(self).items() == after_receive(old(self).items()),
            final(self).spec_capacity() == old(self).spec_capacity(),
            final(self).sender_count() == old(self).sender_count(),
            final(self).receiver_registered(),
    {
        self.waker.register();
        match self.queue.pop() {
            Some(data) => Poll::Ready(Some(data)),
            None => {
                if self.senders == 0 {
                    Poll::Ready(None)
                } else {
                    Poll::Pending
                }
            },
        }
    }
}

/// A channel holding as many items as its capacity refuses the next one; once
/// the receiver has taken one item, the next send is accepted.
pub proof fn lemma_backpressure<T>(items: Seq<T>, capacity: nat, senders: nat, v: T)
    requires
        items.len() == capacity,
        capacity > 0,
    ensures
        !send_accepted(items, capacity),
        offer(items, capacity, v) == items,
        receive_outcome(items, senders) == Poll::Ready(Some(items[0])),
        send_accepted(after_receive(items), capacity),
        offer(after_receive(items), capacity, v) == items.drop_first().push(v),
{
}

/// The outcomes of `n` successive receiver polls with no send between them.
pub open spec fn receive_outcomes<T>(items: Seq<T>, senders: nat, n: nat) -> Seq<Poll<Option<T>>>
    decreases n,
{
    if n == 0 {
        Seq::empty()
    } else {
        seq![receive_outcome(items, senders)] + receive_outcomes(
            after_receive(items),
            senders,
            (n - 1) as nat,
        )
    }
}

/// With no sender left, the receiver drains the queued items in order and then
/// reports the end of the stream on every further poll, never yielding an item
/// again.
pub proof fn lemma_termination_is_final<T>(items: Seq<T>, n: nat)
    ensures
        receive_outcomes(items, 0, n).len() == n,
        forall|i: int|
            0 <= i < n ==> #[trigger] receive_outcomes(items, 0, n)[i] == (if i < items.len() {
                Poll::Ready(Some(items[i]))
            } else {
                Poll::<Option<T>>::Ready(None)
            }),
    decreases n,
{
    if n > 0 {
        let rest = after_receive(items);
        lemma_termination_is_final(rest, (n - 1) as nat);
        let all = receive_outcomes(items, 0, n);
        assert forall|i: int| 0 <= i < n implies #[trigger] all[i] == (if i < items.len() {
            Poll::Ready(Some(items[i]))
        } else {
            Poll::<Option<T>>::Ready(None)
        }) by {
            if i > 0 {
                assert(all[i] == receive_outcomes(rest, 0, (n - 1) as nat)[i - 1]);
                if i < items.len() {
                    assert(rest[i - 1] == items[i]);
                }
            }
        }
    }
}

} // verus!
