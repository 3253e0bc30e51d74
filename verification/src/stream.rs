//! The streaming forwarding protocol: an unbounded loop that receives each
//! message from a taken stream edge receiver, re-encodes it to wire format,
//! and forwards it downstream in the exact order received — no reordering,
//! no coalescing, no dropping of barriers. Producer-side closure is the
//! ordinary end of stream, distinct from failure; an encode failure becomes
//! exactly one terminal error item, after which the stream ends; a failed
//! send means the consumer is gone and stops the loop silently.

use vstd::prelude::*;

use crate::channel::{BoundedChannel, RecvOutcome, SendOutcome};
use crate::codec::{encode_stream_message, spec_encode_stream_message};
use crate::message::{StreamMessage, StreamWireItem, TerminalError};

verus! {

/// The consumer side of one long-lived streaming edge, as the forwarding
/// run sees it: the messages the upstream side will emit, in order, before
/// closing its side of the channel. Ownership moves exactly once, from the
/// stream edge registry to the forwarding run.
pub struct StreamSource {
    pub messages: Vec<StreamMessage>,
}

/// The wire items `items` are exactly the messages `msgs`, each re-encoded,
/// in the same order, with no terminal error among them.
pub open spec fn stream_items_match(items: Seq<StreamWireItem>, msgs: Seq<StreamMessage>) -> bool {
    &&& items.len() == msgs.len()
    &&& forall|i: int|
        0 <= i < items.len() ==> ((#[trigger] items[i]) matches StreamWireItem::Msg(b) && b@
            == spec_encode_stream_message(msgs[i]))
}

/// What one external encode attempt produced, handed to the forwarding
/// decision as a plain value.
pub enum EncodeOutcome {
    /// The message's wire bytes.
    Encoded(Vec<u8>),
    /// The message could not be converted to wire format.
    EncodeFailed,
}

/// What the streaming loop does next, decided from one received event.
pub enum ForwardDecision {
    /// Forward this wire item downstream and keep looping.
    Forward(StreamWireItem),
    /// Forward this single terminal error item downstream, then end the
    /// stream.
    ForwardTerminalThenStop(StreamWireItem),
    /// The upstream producer closed the edge: exit cleanly, with no error.
    StopClean,
}

/// After a send: keep looping, or stop silently because the consumer is
/// gone.
pub enum SendFollowUp {
    KeepForwarding,
    StopSilently,
}

/// The streaming loop's decision table: no next message means the
/// producer closed the edge, the ordinary end of stream, so stop cleanly;
/// an encoded message is forwarded as a wire item; an encode failure
/// becomes exactly one terminal error item, after which the stream ends.
pub fn stream_forward_decision(next: Option<EncodeOutcome>) -> (d: ForwardDecision)
    ensures
        next is None ==> d is StopClean,
        next matches Some(o) ==> (o matches EncodeOutcome::Encoded(b) ==> d
            == ForwardDecision::Forward(StreamWireItem::Msg(b))),
        next == Some(EncodeOutcome::EncodeFailed) ==> d == ForwardDecision::ForwardTerminalThenStop(
            StreamWireItem::Failure(TerminalError::EncodeFailure),
        ),
{
    match next {
        None => ForwardDecision::StopClean,
        Some(EncodeOutcome::Encoded(b)) => ForwardDecision::Forward(StreamWireItem::Msg(b)),
        Some(EncodeOutcome::EncodeFailed) => ForwardDecision::ForwardTerminalThenStop(
            StreamWireItem::Failure(TerminalError::EncodeFailure),
        ),
    }
}

/// What follows one downstream send: a delivered item keeps the loop
/// forwarding; a failed send means the consumer disconnected, the normal
/// cancellation path, and stops the loop silently — never an error.
pub fn after_send(delivered: bool) -> (f: SendFollowUp)
    ensures
        delivered ==> f is KeepForwarding,
        !delivered ==> f is StopSilently,
{
    if delivered {
        SendFollowUp::KeepForwarding
    } else {
        SendFollowUp::StopSilently
    }
}

/// The wire items `items` carry exactly the encoder's outputs `outcomes`,
/// in order: each outcome was an encoded message, forwarded unchanged.
pub open spec fn encoded_items_match(items: Seq<StreamWireItem>, outcomes: Seq<
    EncodeOutcome,
>) -> bool {
    &&& items.len() == outcomes.len()
    &&& forall|i: int|
        0 <= i < items.len() ==> ((#[trigger] items[i]) matches StreamWireItem::Msg(b)
            && outcomes[i] matches EncodeOutcome::Encoded(eb) && b == eb)
}

/// Forwards one edge's messages as an external, fallible encoder produced
/// them: `outcomes` is, in order, what the encode step made of each
/// received message. Every encoded message is forwarded unchanged, in FIFO
/// order, until the first encode failure; that failure becomes exactly one
/// terminal error item, and then the stream ends — later messages are
/// never observed.
pub fn run_stream_exchange_encoded(
    outcomes: Vec<EncodeOutcome>,
    capacity: usize,
    pace: &Vec<bool>,
) -> (r: Vec<StreamWireItem>)
    requires
        capacity >= 1,
    ensures
        (forall|i: int| 0 <= i < outcomes@.len() ==> (#[trigger] outcomes@[i]) is Encoded)
            ==> encoded_items_match(r@, outcomes@),
        forall|f: int|
            0 <= f < outcomes@.len() && (#[trigger] outcomes@[f]) is EncodeFailed && (forall|j: int|
                0 <= j < f ==> (#[trigger] outcomes@[j]) is Encoded) ==> {
                &&& r@.len() == f + 1
                &&& encoded_items_match(r@.take(f), outcomes@.take(f))
                &&& r@[f] == StreamWireItem::Failure(TerminalError::EncodeFailure)
            },
{
    let ghost outs0 = outcomes@;
    let total = outcomes.len();
    let mut src = outcomes;
    let mut chan = BoundedChannel::<StreamWireItem>::new(capacity);
    let mut received: Vec<StreamWireItem> = Vec::new();
    let mut p: usize = 0;
    let mut stopped = false;
    while !((src.len() == 0 || stopped) && chan.is_empty())
        invariant
            chan.wf(),
            chan.capacity() == capacity as int,
            capacity >= 1,
            !chan.sender_closed(),
            !chan.receiver_gone(),
            total == outs0.len(),
            src@.len() <= total,
            src@ == outs0.subrange(total - src@.len(), total as int),
            received@.len() + chan.queue().len() == total - src@.len(),
            !stopped ==> encoded_items_match(
                received@ + chan.queue(),
                outs0.take(total - src@.len()),
            ),
            !stopped ==> forall|j: int|
                0 <= j < total - src@.len() ==> (#[trigger] outs0[j]) is Encoded,
            stopped ==> {
                let produced = total - src@.len();
                &&& produced >= 1
                &&& outs0[produced - 1] is EncodeFailed
                &&& (forall|j: int| 0 <= j < produced - 1 ==> (#[trigger] outs0[j]) is Encoded)
                &&& encoded_items_match(
                    (received@ + chan.queue()).take(produced - 1),
                    outs0.take(produced - 1),
                )
                &&& (received@ + chan.queue())[produced - 1] == StreamWireItem::Failure(
                    TerminalError::EncodeFailure,
                )
            },
            pace.len() > 0 ==> p < pace.len(),
        decreases if stopped {
            0int
        } else {
            src.len() as int
        }, chan.queue().len(),
    {
        let can_consume = !chan.is_empty();
        let can_produce = src.len() > 0 && !stopped && !chan.is_full();
        proof {
            assert(can_produce || can_consume);
        }
        let mut produce_now = can_produce;
        if can_produce && can_consume && pace.len() > 0 {
            produce_now = pace[p];
            p = if p + 1 == pace.len() {
                0
            } else {
                p + 1
            };
        }
        let ghost produced = total - src@.len();
        let ghost seen = received@ + chan.queue();
        if produce_now {
            let outcome = src.remove(0);
            proof {
                assert(outcome == outs0[produced]);
                assert(src@ =~= outs0.subrange(total - src@.len(), total as int));
            }
            match stream_forward_decision(Some(outcome)) {
                ForwardDecision::Forward(item) => {
                    let ghost itemg = item;
                    match chan.try_send(item) {
                        SendOutcome::Sent => {},
                        _ => {
                            proof {
                                assert(false);
                            }
                        },
                    }
                    proof {
                        let now = received@ + chan.queue();
                        assert(now =~= seen.push(itemg));
                        assert forall|i: int| 0 <= i < produced + 1 implies ((#[trigger] now[i])
                            matches StreamWireItem::Msg(b) && outs0.take(produced + 1)[i] matches
                            EncodeOutcome::Encoded(eb) && b == eb) by {
                            if i < produced {
                                assert(seen[i] matches StreamWireItem::Msg(b) && outs0.take(
                                    produced,
                                )[i] matches EncodeOutcome::Encoded(eb) && b == eb);
                                assert(now[i] == seen[i]);
                            } else {
                                assert(now[i] == itemg);
                            }
                        }
                    }
                },
                ForwardDecision::ForwardTerminalThenStop(item) => {
                    let ghost itemg = item;
                    match chan.try_send(item) {
                        SendOutcome::Sent => {},
                        _ => {
                            proof {
                                assert(false);
                            }
                        },
                    }
                    stopped = true;
                    proof {
                        let now = received@ + chan.queue();
                        assert(now =~= seen.push(itemg));
                        assert(itemg == StreamWireItem::Failure(TerminalError::EncodeFailure));
                        assert(now.take(produced) =~= seen);
                        assert(seen =~= (received@ + chan.queue()).take(produced));
                    }
                },
                ForwardDecision::StopClean => {
                    proof {
                        assert(false);
                    }
                },
            }
        } else {
            match chan.recv() {
                RecvOutcome::Received(item) => {
                    received.push(item);
                    proof {
                        assert(received@ + chan.queue() =~= seen);
                        assert((received@ + chan.queue()).take((total - src@.len()) - 1)
                            =~= seen.take((total - src@.len()) - 1));
                    }
                },
                _ => {
                    proof {
                        assert(false);
                    }
                },
            }
        }
    }
    chan.close_sender();
    match chan.recv() {
        RecvOutcome::Closed => {},
        _ => {
            proof {
                assert(false);
            }
        },
    }
    proof {
        assert(received@ =~= received@ + chan.queue());
        if !stopped {
            assert(outs0.take(total as int) =~= outs0);
        }
        assert forall|f: int|
            0 <= f < outs0.len() && (#[trigger] outs0[f]) is EncodeFailed && (forall|j: int|
                0 <= j < f ==> (#[trigger] outs0[j]) is Encoded) implies {
            &&& received@.len() == f + 1
            &&& encoded_items_match(received@.take(f), outs0.take(f))
            &&& received@[f] == StreamWireItem::Failure(TerminalError::EncodeFailure)
        } by {
            assert(stopped);
            let produced = total - src@.len();
            if f < produced - 1 {
                assert(outs0[f] is Encoded);
            } else if f > produced - 1 {
                assert(outs0[produced - 1] is Encoded);
            }
            assert(f == produced - 1);
            assert(received@.take(f) =~= (received@ + chan.queue()).take(produced - 1));
            assert(received@[f] == (received@ + chan.queue())[produced - 1]);
        }
    }
    received
}

/// Forwards a whole edge's message sequence through a fresh bounded channel
/// of the given capacity while the consumer reads at its own pace, and
/// returns what the consumer observed before the clean end of the stream.
///
/// `pace` is the consumer's schedule, as in the batch run. Whatever the
/// pace and capacity, the consumer observes every message the upstream
/// emitted, re-encoded, in FIFO order, and then the clean end of the
/// stream: closing the producer side with no pending error yields no
/// terminal error item.
pub fn run_stream_exchange(source: StreamSource, capacity: usize, pace: &Vec<bool>) -> (r: Vec<
    StreamWireItem,
>)
    requires
        capacity >= 1,
    ensures
        stream_items_match(r@, source.messages@),
{
    let StreamSource { messages } = source;
    let ghost msgs0 = messages@;
    let total = messages.len();
    let mut src = messages;
    let mut chan = BoundedChannel::<StreamWireItem>::new(capacity);
    let mut received: Vec<StreamWireItem> = Vec::new();
    let mut p: usize = 0;
    while !(src.len() == 0 && chan.is_empty())
        invariant
            chan.wf(),
            chan.capacity() == capacity as int,
            capacity >= 1,
            !chan.sender_closed(),
            !chan.receiver_gone(),
            total == msgs0.len(),
            src@.len() <= total,
            src@ == msgs0.subrange(total - src@.len(), total as int),
            received@.len() + chan.queue().len() == total - src@.len(),
            stream_items_match(
                received@ + chan.queue(),
                msgs0.take(received@.len() + chan.queue().len() as int),
            ),
            pace.len() > 0 ==> p < pace.len(),
        decreases src.len(), chan.queue().len(),
    {
        let can_consume = !chan.is_empty();
        let can_produce = src.len() > 0 && !chan.is_full();
        proof {
            assert(can_produce || can_consume);
        }
        let mut produce_now = can_produce;
        if can_produce && can_consume && pace.len() > 0 {
            produce_now = pace[p];
            p = if p + 1 == pace.len() {
                0
            } else {
                p + 1
            };
        }
        let ghost emitted = received@.len() + chan.queue().len() as int;
        let ghost seen = received@ + chan.queue();
        if produce_now {
            let ghost sent = total - src@.len();
            let m = src.remove(0);
            proof {
                assert(m == msgs0[sent]);
                assert(src@ =~= msgs0.subrange(total - src@.len(), total as int));
            }
            let bytes = encode_stream_message(&m);
            match chan.try_send(StreamWireItem::Msg(bytes)) {
                SendOutcome::Sent => {},
                _ => {
                    proof {
                        assert(false);
                    }
                },
            }
            proof {
                assert(emitted == sent);
                let now = received@ + chan.queue();
                assert(now =~= seen.push(StreamWireItem::Msg(bytes)));
                assert forall|i: int| 0 <= i < emitted + 1 implies (#[trigger] now[i]) matches
                    StreamWireItem::Msg(b) && b@ == spec_encode_stream_message(
                    msgs0.take(emitted + 1)[i],
                ) by {
                    if i < emitted {
                        assert(seen[i] matches StreamWireItem::Msg(b) && b@
                            == spec_encode_stream_message(msgs0.take(emitted)[i]));
                        assert(now[i] == seen[i]);
                    } else {
                        assert(now[i] == StreamWireItem::Msg(bytes));
                    }
                }
            }
        } else {
            match chan.recv() {
                RecvOutcome::Received(item) => {
                    received.push(item);
                    proof {
                        assert(received@ + chan.queue() =~= seen);
                    }
                },
                _ => {
                    proof {
                        assert(false);
                    }
                },
            }
        }
    }
    // the producer side closes with no pending error: the consumer's next
    // receive observes the clean end of the stream, never a terminal item
    chan.close_sender();
    match chan.recv() {
        RecvOutcome::Closed => {},
        _ => {
            proof {
                assert(false);
            }
        },
    }
    proof {
        assert(received@ =~= received@ + chan.queue());
        assert(msgs0.take(total as int) =~= msgs0);
    }
    received
}

/// Like [`run_stream_exchange`], but the consumer disconnects after
/// reading `read_limit` items: the receive end is dropped, and the
/// forwarding loop exits silently at its next failed send. The consumer
/// has then observed exactly the first `read_limit` messages, re-encoded,
/// in FIFO order — or every message, if the stream is shorter — and never
/// any error item: disconnect is the normal cancellation path.
pub fn run_stream_exchange_with_disconnect(
    source: StreamSource,
    capacity: usize,
    pace: &Vec<bool>,
    read_limit: usize,
) -> (r: Vec<StreamWireItem>)
    requires
        capacity >= 1,
    ensures
        stream_items_match(
            r@,
            source.messages@.take(
                if read_limit <= source.messages@.len() {
                    read_limit as int
                } else {
                    source.messages@.len() as int
                },
            ),
        ),
{
    let StreamSource { messages } = source;
    let ghost msgs0 = messages@;
    let total = messages.len();
    let mut src = messages;
    let mut chan = BoundedChannel::<StreamWireItem>::new(capacity);
    let mut received: Vec<StreamWireItem> = Vec::new();
    let mut p: usize = 0;
    let mut dropped = false;
    let mut done = false;
    while !done
        invariant
            chan.wf(),
            chan.capacity() == capacity as int,
            capacity >= 1,
            !chan.sender_closed(),
            total == msgs0.len(),
            src@.len() <= total,
            src@ == msgs0.subrange(total - src@.len(), total as int),
            received@.len() <= read_limit,
            chan.receiver_gone() == dropped,
            dropped ==> done,
            !dropped ==> received@.len() + chan.queue().len() == total - src@.len(),
            !dropped ==> stream_items_match(
                received@ + chan.queue(),
                msgs0.take(total - src@.len()),
            ),
            done ==> stream_items_match(
                received@,
                msgs0.take(
                    if read_limit <= total {
                        read_limit as int
                    } else {
                        total as int
                    },
                ),
            ),
            pace.len() > 0 ==> p < pace.len(),
        decreases if done {
            0int
        } else {
            1int
        }, src.len(), chan.queue().len(),
    {
        if received.len() == read_limit && !dropped {
            let ghost seen = received@ + chan.queue();
            proof {
                assert(read_limit <= total);
                assert forall|i: int| 0 <= i < received@.len() implies ((#[trigger] received@[i])
                    matches StreamWireItem::Msg(b) && b@ == spec_encode_stream_message(
                    msgs0.take(read_limit as int)[i],
                )) by {
                    assert(seen[i] matches StreamWireItem::Msg(b) && b@
                        == spec_encode_stream_message(msgs0.take(total - src@.len())[i]));
                    assert(received@[i] == seen[i]);
                }
            }
            chan.drop_receiver();
            dropped = true;
            // the forwarding loop learns of the disconnect at its next
            // send, abandons the item, and exits silently with no error
            if src.len() > 0 {
                let m = src.remove(0);
                let bytes = encode_stream_message(&m);
                match chan.try_send(StreamWireItem::Msg(bytes)) {
                    SendOutcome::Disconnected(_) => {},
                    _ => {
                        proof {
                            assert(false);
                        }
                    },
                }
            }
            done = true;
        } else if src.len() == 0 && chan.is_empty() {
            done = true;
            proof {
                assert(total <= read_limit);
                assert(received@ =~= received@ + chan.queue());
            }
        } else {
            let can_consume = !chan.is_empty();
            let can_produce = src.len() > 0 && !chan.is_full();
            proof {
                assert(can_produce || can_consume);
            }
            let mut produce_now = can_produce;
            if can_produce && can_consume && pace.len() > 0 {
                produce_now = pace[p];
                p = if p + 1 == pace.len() {
                    0
                } else {
                    p + 1
                };
            }
            let ghost emitted = received@.len() + chan.queue().len() as int;
            let ghost seen = received@ + chan.queue();
            if produce_now {
                let ghost sent = total - src@.len();
                let m = src.remove(0);
                proof {
                    assert(m == msgs0[sent]);
                    assert(src@ =~= msgs0.subrange(total - src@.len(), total as int));
                }
                let bytes = encode_stream_message(&m);
                match chan.try_send(StreamWireItem::Msg(bytes)) {
                    SendOutcome::Sent => {},
                    _ => {
                        proof {
                            assert(false);
                        }
                    },
                }
                proof {
                    assert(emitted == sent);
                    let now = received@ + chan.queue();
                    assert(now =~= seen.push(StreamWireItem::Msg(bytes)));
                    assert forall|i: int| 0 <= i < emitted + 1 implies (#[trigger] now[i]) matches
                        StreamWireItem::Msg(b) && b@ == spec_encode_stream_message(
                        msgs0.take(emitted + 1)[i],
                    ) by {
                        if i < emitted {
                            assert(seen[i] matches StreamWireItem::Msg(b) && b@
                                == spec_encode_stream_message(msgs0.take(emitted)[i]));
                            assert(now[i] == seen[i]);
                        } else {
                            assert(now[i] == StreamWireItem::Msg(bytes));
                        }
                    }
                }
            } else {
                match chan.recv() {
                    RecvOutcome::Received(item) => {
                        received.push(item);
                        proof {
                            assert(received@ + chan.queue() =~= seen);
                        }
                    },
                    _ => {
                        proof {
                            assert(false);
                        }
                    },
                }
            }
        }
    }
    received
}

} // verus!
