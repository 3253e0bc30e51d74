//! The exchange writer: adapts a task's native output items into wire items
//! on a bounded channel, converts a producer failure into the single
//! terminal wire error, and counts delivered chunks for post-hoc
//! observability.

use vstd::prelude::*;

use crate::channel::{BoundedChannel, SendOutcome};
use crate::message::{BatchWireItem, DataChunk, TerminalError};

verus! {

/// What one `write` attempt did.
pub enum WriteOutcome {
    /// The chunk was delivered into the channel in FIFO position.
    Written,
    /// The channel is at capacity; the chunk comes back, to be retried once
    /// the consumer has drained. In the running system this is the point
    /// where the forwarding task suspends: the sole backpressure mechanism.
    ChannelFull(DataChunk),
    /// The consumer is gone. Not an error for the writer: it is the normal
    /// cancellation path, and the chunk is simply abandoned.
    ConsumerGone,
}

/// What one terminal-error delivery attempt did.
pub enum FailureWriteOutcome {
    /// The terminal error item was placed in the channel.
    Delivered,
    /// The channel is at capacity; delivery is to be retried once the
    /// consumer has drained.
    ChannelFull,
    /// The consumer is gone; the attempt is abandoned, never re-raised.
    ConsumerGone,
}

/// Adapts a producer's items into wire items on a bounded channel of
/// `BatchWireItem`, tracking how many chunks it has delivered.
pub struct ExchangeWriter {
    written: usize,
}

impl ExchangeWriter {
    /// How many data chunks this writer has delivered into its channel.
    pub closed spec fn count(self) -> int {
        self.written as int
    }

    /// A fresh writer that has delivered nothing.
    pub fn new() -> (w: Self)
        ensures
            w.count() == 0,
    {
        ExchangeWriter { written: 0 }
    }

    /// The delivered-chunk counter, for post-hoc observability.
    pub fn written_chunks(&self) -> (n: usize)
        ensures
            n == self.count(),
    {
        self.written
    }

    /// Delivers one chunk as the next wire item, in FIFO order. Never
    /// retries on its own: a full channel hands the chunk back, and a gone
    /// consumer abandons it.
    pub fn write(&mut self, chan: &mut BoundedChannel<BatchWireItem>, chunk: DataChunk) -> (r:
        WriteOutcome)
        requires
            old(chan).wf(),
            !old(chan).sender_closed(),
            old(self).count() < usize::MAX,
        ensures
            final(chan).wf(),
            final(chan).capacity() == old(chan).capacity(),
            final(chan).sender_closed() == old(chan).sender_closed(),
            final(chan).receiver_gone() == old(chan).receiver_gone(),
            old(chan).receiver_gone() ==> r is ConsumerGone && final(chan).queue() == old(
                chan,
            ).queue() && final(self).count() == old(self).count(),
            !old(chan).receiver_gone() && old(chan).queue().len() == old(chan).capacity() ==> r
                == WriteOutcome::ChannelFull(chunk) && final(chan).queue() == old(chan).queue()
                && final(self).count() == old(self).count(),
            !old(chan).receiver_gone() && old(chan).queue().len() < old(chan).capacity() ==> r
                is Written && final(chan).queue() == old(chan).queue().push(
                BatchWireItem::Data(chunk),
            ) && final(self).count() == old(self).count() + 1,
    {
        match chan.try_send(BatchWireItem::Data(chunk)) {
            SendOutcome::Sent => {
                self.written = self.written + 1;
                WriteOutcome::Written
            },
            SendOutcome::Full(item) => {
                match item {
                    BatchWireItem::Data(c) => WriteOutcome::ChannelFull(c),
                    BatchWireItem::Failure(_) => {
                        proof {
                            assert(false);
                        }
                        WriteOutcome::ConsumerGone
                    },
                }
            },
            SendOutcome::Disconnected(_) => WriteOutcome::ConsumerGone,
        }
    }

    /// Converts a producer failure into the single terminal wire error and
    /// attempts to deliver it as the last channel item. Delivery is
    /// best-effort: a gone consumer abandons the attempt. The counter is
    /// untouched: only data chunks are counted.
    pub fn write_failure(
        &mut self,
        chan: &mut BoundedChannel<BatchWireItem>,
        error: TerminalError,
    ) -> (r: FailureWriteOutcome)
        requires
            old(chan).wf(),
            !old(chan).sender_closed(),
        ensures
            final(self).count() == old(self).count(),
            final(chan).wf(),
            final(chan).capacity() == old(chan).capacity(),
            final(chan).sender_closed() == old(chan).sender_closed(),
            final(chan).receiver_gone() == old(chan).receiver_gone(),
            old(chan).receiver_gone() ==> r is ConsumerGone && final(chan).queue() == old(
                chan,
            ).queue(),
            !old(chan).receiver_gone() && old(chan).queue().len() == old(chan).capacity() ==> r
                is ChannelFull && final(chan).queue() == old(chan).queue(),
            !old(chan).receiver_gone() && old(chan).queue().len() < old(chan).capacity() ==> r
                is Delivered && final(chan).queue() == old(chan).queue().push(
                BatchWireItem::Failure(error),
            ),
    {
        match chan.try_send(BatchWireItem::Failure(error)) {
            SendOutcome::Sent => FailureWriteOutcome::Delivered,
            SendOutcome::Full(_) => FailureWriteOutcome::ChannelFull,
            SendOutcome::Disconnected(_) => FailureWriteOutcome::ConsumerGone,
        }
    }
}

} // verus!
