//! The bounded channel between one producer side and one consumer side: an
//! ordered, capacity-limited queue with a one-shot, irreversible closed state
//! on either side.
//!
//! In the running system the producer suspends while the channel is full and
//! the consumer suspends while it is empty; those suspension points are the
//! backpressure mechanism. Here the channel is the state those suspended
//! parties agree on: `try_send` reports `Full` instead of suspending and
//! `recv` reports `Empty`, and the forwarding protocols decide what each
//! report means.

use vstd::prelude::*;

verus! {

/// What one attempted send did to the channel.
pub enum SendOutcome<T> {
    /// The item was appended to the queue.
    Sent,
    /// The queue held `capacity` items; the item is handed back so the
    /// producer can retry once the consumer has drained.
    Full(T),
    /// The consumer side is gone; the item is handed back and will never be
    /// delivered.
    Disconnected(T),
}

/// What one receive attempt observed.
pub enum RecvOutcome<T> {
    /// The oldest queued item.
    Received(T),
    /// Nothing queued yet, but the producer side is still open.
    Empty,
    /// Nothing queued and the producer side is closed: end of stream.
    Closed,
}

/// An ordered, capacity-limited queue of items between exactly one producer
/// side and one consumer side.
pub struct BoundedChannel<T> {
    buf: Vec<T>,
    cap: usize,
    sender_closed: bool,
    receiver_gone: bool,
}

impl<T> BoundedChannel<T> {
    /// The queued items, oldest first.
    pub closed spec fn queue(self) -> Seq<T> {
        self.buf@
    }

    /// The fixed capacity the channel was created with.
    pub closed spec fn capacity(self) -> int {
        self.cap as int
    }

    /// Whether the producer side has closed the channel.
    pub closed spec fn sender_closed(self) -> bool {
        self.sender_closed
    }

    /// Whether the consumer side has been dropped.
    pub closed spec fn receiver_gone(self) -> bool {
        self.receiver_gone
    }

    /// The queue never outgrows the positive capacity.
    pub open spec fn wf(self) -> bool {
        1 <= self.capacity() && self.queue().len() <= self.capacity()
    }

    /// A fresh open channel of the given capacity.
    pub fn new(capacity: usize) -> (c: Self)
        requires
            capacity >= 1,
        ensures
            c.wf(),
            c.capacity() == capacity,
            c.queue() == Seq::<T>::empty(),
            !c.sender_closed(),
            !c.receiver_gone(),
    {
        BoundedChannel { buf: Vec::new(), cap: capacity, sender_closed: false, receiver_gone: false }
    }

    /// Whether the queue is at capacity.
    pub fn is_full(&self) -> (b: bool)
        ensures
            b == (self.queue().len() == self.capacity()),
    {
        self.buf.len() == self.cap
    }

    /// Whether the queue is empty.
    pub fn is_empty(&self) -> (b: bool)
        ensures
            b == (self.queue().len() == 0),
    {
        self.buf.len() == 0
    }

    /// One producer-side send attempt. Appends the item in FIFO position
    /// when there is room and the consumer is still there; otherwise the
    /// item comes back with the reason, and the channel is unchanged.
    pub fn try_send(&mut self, item: T) -> (r: SendOutcome<T>)
        requires
            old(self).wf(),
            !old(self).sender_closed(),
        ensures
            final(self).wf(),
            final(self).capacity() == old(self).capacity(),
            final(self).sender_closed() == old(self).sender_closed(),
            final(self).receiver_gone() == old(self).receiver_gone(),
            old(self).receiver_gone() ==> r == SendOutcome::Disconnected(item)
                && final(self).queue() == old(self).queue(),
            !old(self).receiver_gone() && old(self).queue().len() == old(self).capacity()
                ==> r == SendOutcome::Full(item) && final(self).queue() == old(self).queue(),
            !old(self).receiver_gone() && old(self).queue().len() < old(self).capacity()
                ==> r is Sent && final(self).queue() == old(self).queue().push(item),
    {
        if self.receiver_gone {
            SendOutcome::Disconnected(item)
        } else if self.buf.len() == self.cap {
            SendOutcome::Full(item)
        } else {
            self.buf.push(item);
            SendOutcome::Sent
        }
    }

    /// One consumer-side receive attempt. Takes the oldest queued item; on
    /// an empty queue, reports end of stream exactly when the producer side
    /// has closed.
    pub fn recv(&mut self) -> (r: RecvOutcome<T>)
        requires
            old(self).wf(),
            !old(self).receiver_gone(),
        ensures
            final(self).wf(),
            final(self).capacity() == old(self).capacity(),
            final(self).sender_closed() == old(self).sender_closed(),
            final(self).receiver_gone() == old(self).receiver_gone(),
            old(self).queue().len() > 0 ==> r == RecvOutcome::Received(old(self).queue()[0])
                && final(self).queue() == old(self).queue().subrange(1, old(self).queue().len() as int),
            old(self).queue().len() == 0 ==> final(self).queue() == old(self).queue()
                && (if old(self).sender_closed() {
                    r is Closed
                } else {
                    r is Empty
                }),
    {
        if self.buf.len() > 0 {
            let item = self.buf.remove(0);
            proof {
                assert(self.buf@ =~= old(self).buf@.subrange(1, old(self).buf@.len() as int));
            }
            RecvOutcome::Received(item)
        } else if self.sender_closed {
            RecvOutcome::Closed
        } else {
            RecvOutcome::Empty
        }
    }

    /// The producer side closes the channel: queued items stay readable,
    /// and once the queue drains the consumer observes end of stream.
    pub fn close_sender(&mut self)
        requires
            old(self).wf(),
        ensures
            final(self).wf(),
            final(self).capacity() == old(self).capacity(),
            final(self).queue() == old(self).queue(),
            final(self).sender_closed(),
            final(self).receiver_gone() == old(self).receiver_gone(),
    {
        self.sender_closed = true;
    }

    /// The consumer side goes away: undelivered items are discarded and
    /// every later send attempt reports `Disconnected`.
    pub fn drop_receiver(&mut self)
        requires
            old(self).wf(),
        ensures
            final(self).wf(),
            final(self).capacity() == old(self).capacity(),
            final(self).queue() == Seq::<T>::empty(),
            final(self).sender_closed() == old(self).sender_closed(),
            final(self).receiver_gone(),
    {
        self.buf.clear();
        self.receiver_gone = true;
    }
}

} // verus!
