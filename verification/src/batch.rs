//! The batch forwarding protocol: drain a taken task output, chunk by
//! chunk, through the exchange writer into a bounded channel, while the
//! consumer reads at its own pace. Every admitted request observes either
//! the finite, ordered chunk sequence followed by channel closure, or that
//! sequence followed by exactly one terminal error item; items are never
//! reordered or duplicated.

use vstd::prelude::*;

use crate::channel::{BoundedChannel, RecvOutcome};
use crate::message::{BatchWireItem, DataChunk, TerminalError};
use crate::writer::{ExchangeWriter, FailureWriteOutcome, WriteOutcome};

verus! {

/// How a task's output sequence ended on the producer side.
#[derive(Clone, Copy, Debug, PartialEq, Eq, Structural)]
pub enum ProducerOutcome {
    /// The task produced its whole output and completed.
    Completed,
    /// The task failed after producing the chunks it did.
    Failed,
}

/// The producer-side handle over one task's finished or finishing output:
/// the chunks it produced, in order, and how the sequence ended. Ownership
/// moves exactly once, from the registry to the forwarding run.
pub struct TaskOutput {
    pub chunks: Vec<DataChunk>,
    pub outcome: ProducerOutcome,
}

/// The exact wire sequence a consumer of this output is owed: every chunk
/// in producer order, followed by exactly one terminal error item when and
/// only when the producer failed.
pub open spec fn expected_batch_wire(chunks: Seq<DataChunk>, outcome: ProducerOutcome) -> Seq<
    BatchWireItem,
> {
    chunks.map(|i: int, c: DataChunk| BatchWireItem::Data(c)) + if outcome is Failed {
        seq![BatchWireItem::Failure(TerminalError::ProducerFailure)]
    } else {
        Seq::<BatchWireItem>::empty()
    }
}

/// A completed output owes the consumer exactly its chunks, in producer
/// order, and nothing else: no terminal item of any kind.
pub proof fn lemma_completed_output_owes_chunks_only(chunks: Seq<DataChunk>)
    ensures
        expected_batch_wire(chunks, ProducerOutcome::Completed).len() == chunks.len(),
        forall|i: int|
            0 <= i < chunks.len() ==> expected_batch_wire(chunks, ProducerOutcome::Completed)[i]
                == BatchWireItem::Data(chunks[i]),
{
}

/// A producer that failed after emitting `chunks` owes the consumer exactly
/// those data items, in order, followed by exactly one terminal error item,
/// and then the stream ends.
pub proof fn lemma_failure_is_observed_exactly_once(chunks: Seq<DataChunk>)
    ensures
        expected_batch_wire(chunks, ProducerOutcome::Failed).len() == chunks.len() + 1,
        forall|i: int|
            0 <= i < chunks.len() ==> expected_batch_wire(chunks, ProducerOutcome::Failed)[i]
                == BatchWireItem::Data(chunks[i]),
        expected_batch_wire(chunks, ProducerOutcome::Failed)[chunks.len() as int]
            == BatchWireItem::Failure(TerminalError::ProducerFailure),
{
}

/// Drains one taken task output through the exchange writer into a fresh
/// bounded channel of the given capacity while the consumer reads at its
/// own pace, and returns what the consumer observed, with the writer's
/// delivered-chunk count.
///
/// `pace` is the consumer's schedule: whenever the producer could go on and
/// the consumer could also read, the next bit decides who moves (`true`
/// lets the producer write), cycling; an exhausted or empty pace lets the
/// producer go first. Whatever the pace and however small the capacity, the
/// consumer observes exactly the owed wire sequence, in order: the channel
/// pipelines, it never drops, duplicates or reorders.
pub fn run_batch_exchange(output: TaskOutput, capacity: usize, pace: &Vec<bool>) -> (r: (
    Vec<BatchWireItem>,
    usize,
))
    requires
        capacity >= 1,
    ensures
        r.0@ == expected_batch_wire(output.chunks@, output.outcome),
        r.1 == output.chunks@.len(),
{
    let TaskOutput { chunks, outcome } = output;
    let ghost chunks0 = chunks@;
    let ghost expected = expected_batch_wire(chunks0, outcome);
    let total = chunks.len();
    let failed = match outcome {
        ProducerOutcome::Failed => true,
        ProducerOutcome::Completed => false,
    };
    let mut src = chunks;
    let mut error_pending = failed;
    let mut chan = BoundedChannel::<BatchWireItem>::new(capacity);
    let mut writer = ExchangeWriter::new();
    let mut received: Vec<BatchWireItem> = Vec::new();
    let mut p: usize = 0;
    while !(src.len() == 0 && !error_pending && chan.is_empty())
        invariant
            chan.wf(),
            chan.capacity() == capacity as int,
            capacity >= 1,
            !chan.sender_closed(),
            !chan.receiver_gone(),
            total == chunks0.len(),
            src@.len() <= total,
            src@ == chunks0.subrange(total - src@.len(), total as int),
            writer.count() == total - src@.len(),
            error_pending ==> failed,
            failed && src@.len() > 0 ==> error_pending,
            expected == expected_batch_wire(chunks0, outcome),
            expected.len() == chunks0.len() + if failed {
                1int
            } else {
                0int
            },
            received@.len() + chan.queue().len() == (total - src@.len()) + if failed
                && !error_pending {
                1int
            } else {
                0int
            },
            received@ + chan.queue() == expected.take(
                received@.len() + chan.queue().len() as int,
            ),
            pace.len() > 0 ==> p < pace.len(),
        decreases src.len() + if error_pending {
            1int
        } else {
            0int
        }, chan.queue().len(),
    {
        let producer_done = src.len() == 0 && !error_pending;
        let can_consume = !chan.is_empty();
        let can_produce = !producer_done && !chan.is_full();
        proof {
            assert(can_produce || can_consume);
        }
        let mut produce_now = can_produce;
        if can_produce && can_consume && pace.len() > 0 {
            produce_now = pace[p];
            p = if p + 1 == pace.len() {
                0
            } else {
                p + 1
            };
        }
        let ghost emitted = received@.len() + chan.queue().len() as int;
        if produce_now {
            if src.len() > 0 {
                let ghost sent = total - src@.len();
                let c = src.remove(0);
                proof {
                    assert(c == chunks0[sent]);
                    assert(src@ =~= chunks0.subrange(total - src@.len(), total as int));
                }
                match writer.write(&mut chan, c) {
                    WriteOutcome::Written => {},
                    _ => {
                        proof {
                            assert(false);
                        }
                    },
                }
                proof {
                    assert(emitted == sent);
                    assert(expected[emitted] == BatchWireItem::Data(chunks0[sent]));
                    assert(expected.take(emitted + 1) =~= expected.take(emitted).push(
                        expected[emitted],
                    ));
                    assert(received@ + chan.queue() =~= expected.take(emitted + 1));
                }
            } else {
                match writer.write_failure(&mut chan, TerminalError::ProducerFailure) {
                    FailureWriteOutcome::Delivered => {},
                    _ => {
                        proof {
                            assert(false);
                        }
                    },
                }
                error_pending = false;
                proof {
                    assert(emitted == chunks0.len() && failed);
                    assert(expected[emitted] == BatchWireItem::Failure(
                        TerminalError::ProducerFailure,
                    ));
                    assert(expected.take(emitted + 1) =~= expected.take(emitted).push(
                        expected[emitted],
                    ));
                    assert(received@ + chan.queue() =~= expected.take(emitted + 1));
                }
            }
        } else {
            match chan.recv() {
                RecvOutcome::Received(item) => {
                    received.push(item);
                    proof {
                        assert(received@ + chan.queue() =~= expected.take(emitted));
                    }
                },
                _ => {
                    proof {
                        assert(false);
                    }
                },
            }
        }
    }
    proof {
        assert(received@.len() == expected.len());
        assert(received@ =~= expected.take(expected.len() as int));
        assert(expected.take(expected.len() as int) =~= expected);
    }
    let count = writer.written_chunks();
    (received, count)
}

/// Like [`run_batch_exchange`], but the consumer disconnects after reading
/// `read_limit` items: the receive end is dropped, and the forwarding side
/// stops at its next send attempt, silently.
///
/// Consumer disconnect is the normal cancellation path, not a failure: the
/// run terminates after at most one further (non-blocking, abandoned) send
/// attempt, raises no error, and the consumer has observed exactly the
/// first `read_limit` owed items — or the whole owed sequence, if it is
/// shorter than `read_limit`.
pub fn run_batch_exchange_with_disconnect(
    output: TaskOutput,
    capacity: usize,
    pace: &Vec<bool>,
    read_limit: usize,
) -> (r: Vec<BatchWireItem>)
    requires
        capacity >= 1,
    ensures
        r@ == expected_batch_wire(output.chunks@, output.outcome).take(
            if read_limit <= expected_batch_wire(output.chunks@, output.outcome).len() {
                read_limit as int
            } else {
                expected_batch_wire(output.chunks@, output.outcome).len() as int
            },
        ),
{
    let TaskOutput { chunks, outcome } = output;
    let ghost chunks0 = chunks@;
    let ghost expected = expected_batch_wire(chunks0, outcome);
    let ghost goal = expected.take(
        if read_limit <= expected.len() {
            read_limit as int
        } else {
            expected.len() as int
        },
    );
    let total = chunks.len();
    let failed = match outcome {
        ProducerOutcome::Failed => true,
        ProducerOutcome::Completed => false,
    };
    let mut src = chunks;
    let mut error_pending = failed;
    let mut chan = BoundedChannel::<BatchWireItem>::new(capacity);
    let mut writer = ExchangeWriter::new();
    let mut received: Vec<BatchWireItem> = Vec::new();
    let mut p: usize = 0;
    let mut dropped = false;
    let mut done = false;
    while !done
        invariant
            chan.wf(),
            chan.capacity() == capacity as int,
            capacity >= 1,
            !chan.sender_closed(),
            total == chunks0.len(),
            src@.len() <= total,
            src@ == chunks0.subrange(total - src@.len(), total as int),
            error_pending ==> failed,
            expected == expected_batch_wire(chunks0, outcome),
            expected.len() == chunks0.len() + if failed {
                1int
            } else {
                0int
            },
            goal == expected.take(
                if read_limit <= expected.len() {
                    read_limit as int
                } else {
                    expected.len() as int
                },
            ),
            received@.len() <= read_limit,
            chan.receiver_gone() == dropped,
            dropped ==> done,
            !dropped ==> {
                &&& writer.count() == total - src@.len()
                &&& (failed && src@.len() > 0 ==> error_pending)
                &&& received@.len() + chan.queue().len() == (total - src@.len()) + if failed
                    && !error_pending {
                    1int
                } else {
                    0int
                }
                &&& received@ + chan.queue() == expected.take(
                    received@.len() + chan.queue().len() as int,
                )
            },
            done ==> received@ == goal,
            pace.len() > 0 ==> p < pace.len(),
        decreases if done {
            0int
        } else {
            1int
        }, src.len() + if error_pending {
            1int
        } else {
            0int
        }, chan.queue().len(),
    {
        if received.len() == read_limit && !dropped {
            proof {
                assert(received@.len() + chan.queue().len() <= expected.len());
                assert(read_limit <= expected.len());
                assert(goal =~= expected.take(read_limit as int));
                assert(received@ =~= expected.take(received@.len() as int));
            }
            chan.drop_receiver();
            dropped = true;
            // the forwarding side learns of the disconnect at its next send
            // attempt, abandons the item, and stops without any error
            if src.len() > 0 {
                let c = src.remove(0);
                match writer.write(&mut chan, c) {
                    WriteOutcome::ConsumerGone => {},
                    _ => {
                        proof {
                            assert(false);
                        }
                    },
                }
            } else if error_pending {
                match writer.write_failure(&mut chan, TerminalError::ProducerFailure) {
                    FailureWriteOutcome::ConsumerGone => {},
                    _ => {
                        proof {
                            assert(false);
                        }
                    },
                }
                error_pending = false;
            }
            done = true;
            proof {
                assert(received@ =~= goal);
            }
        } else if src.len() == 0 && !error_pending && chan.is_empty() {
            done = true;
            proof {
                assert(received@.len() == expected.len());
                assert(received@ =~= expected.take(expected.len() as int));
                assert(expected.len() <= read_limit);
                assert(goal =~= expected.take(expected.len() as int));
                assert(received@ =~= goal);
            }
        } else {
            let producer_done = src.len() == 0 && !error_pending;
            let can_consume = !chan.is_empty();
            let can_produce = !producer_done && !chan.is_full();
            proof {
                assert(can_produce || can_consume);
            }
            let mut produce_now = can_produce;
            if can_produce && can_consume && pace.len() > 0 {
                produce_now = pace[p];
                p = if p + 1 == pace.len() {
                    0
                } else {
                    p + 1
                };
            }
            let ghost emitted = received@.len() + chan.queue().len() as int;
            if produce_now {
                if src.len() > 0 {
                    let ghost sent = total - src@.len();
                    let c = src.remove(0);
                    proof {
                        assert(c == chunks0[sent]);
                        assert(src@ =~= chunks0.subrange(total - src@.len(), total as int));
                    }
                    match writer.write(&mut chan, c) {
                        WriteOutcome::Written => {},
                        _ => {
                            proof {
                                assert(false);
                            }
                        },
                    }
                    proof {
                        assert(emitted == sent);
                        assert(expected[emitted] == BatchWireItem::Data(chunks0[sent]));
                        assert(expected.take(emitted + 1) =~= expected.take(emitted).push(
                            expected[emitted],
                        ));
                        assert(received@ + chan.queue() =~= expected.take(emitted + 1));
                    }
                } else {
                    match writer.write_failure(&mut chan, TerminalError::ProducerFailure) {
                        FailureWriteOutcome::Delivered => {},
                        _ => {
                            proof {
                                assert(false);
                            }
                        },
                    }
                    error_pending = false;
                    proof {
                        assert(emitted == chunks0.len() && failed);
                        assert(expected[emitted] == BatchWireItem::Failure(
                            TerminalError::ProducerFailure,
                        ));
                        assert(expected.take(emitted + 1) =~= expected.take(emitted).push(
                            expected[emitted],
                        ));
                        assert(received@ + chan.queue() =~= expected.take(emitted + 1));
                    }
                }
            } else {
                match chan.recv() {
                    RecvOutcome::Received(item) => {
                        received.push(item);
                        proof {
                            assert(received@ + chan.queue() =~= expected.take(emitted));
                        }
                    },
                    _ => {
                        proof {
                            assert(false);
                        }
                    },
                }
            }
        }
    }
    received
}

} // verus!
