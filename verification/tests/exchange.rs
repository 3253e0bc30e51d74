use exchange::batch::{
    run_batch_exchange, run_batch_exchange_with_disconnect, ProducerOutcome, TaskOutput,
};
use exchange::channel::{BoundedChannel, RecvOutcome, SendOutcome};
use exchange::codec::encode_stream_message;
use exchange::ids::{StreamEdgeId, TaskSinkId};
use exchange::message::{
    status_of_setup_error, status_of_terminal_error, Barrier, BatchWireItem, DataChunk, SetupError,
    StatusCode, StreamMessage, StreamWireItem, TerminalError,
};
use exchange::registry::{RegisterError, Registry, TakeError};
use exchange::service::{ExchangeService, PeerAddr};
use exchange::stream::{
    after_send, run_stream_exchange, run_stream_exchange_encoded,
    run_stream_exchange_with_disconnect, stream_forward_decision, EncodeOutcome, ForwardDecision,
    SendFollowUp, StreamSource,
};
use exchange::writer::{ExchangeWriter, FailureWriteOutcome, WriteOutcome};

fn sink(n: u32) -> TaskSinkId {
    TaskSinkId { query_id: 7, stage_id: 1, task_id: n, sink_id: 0 }
}

fn chunk(bytes: &[u8]) -> DataChunk {
    DataChunk { payload: bytes.to_vec() }
}

fn peer() -> Option<PeerAddr> {
    Some(PeerAddr { addr: String::from("192.0.2.10:5688") })
}

fn data_payload(item: &BatchWireItem) -> &[u8] {
    match item {
        BatchWireItem::Data(c) => &c.payload,
        BatchWireItem::Failure(_) => panic!("expected a data item"),
    }
}

fn msg_bytes(item: &StreamWireItem) -> &[u8] {
    match item {
        StreamWireItem::Msg(b) => b,
        StreamWireItem::Failure(_) => panic!("expected an encoded message"),
    }
}

#[test]
fn take_hands_out_each_handle_at_most_once() {
    let mut reg: Registry<TaskSinkId, u32> = Registry::new();
    assert!(reg.register(sink(1), 41).is_ok());
    assert_eq!(reg.take(sink(1)), Ok(41));
    assert_eq!(reg.take(sink(1)), Err(TakeError::NotFound));
}

#[test]
fn take_twice_always_fails_the_second_time() {
    let mut reg: Registry<TaskSinkId, u32> = Registry::new();
    assert!(reg.register(sink(3), 12).is_ok());
    let (first, second) = reg.take_twice(sink(3));
    assert_eq!(first, Ok(12));
    assert_eq!(second, Err(TakeError::NotFound));
    let (first, second) = reg.take_twice(sink(4));
    assert_eq!(first, Err(TakeError::NotFound));
    assert_eq!(second, Err(TakeError::NotFound));
}

#[test]
fn take_of_unknown_id_is_not_found() {
    let mut reg: Registry<TaskSinkId, u32> = Registry::new();
    assert_eq!(reg.take(sink(9)), Err(TakeError::NotFound));
    assert!(reg.register(sink(2), 5).is_ok());
    assert_eq!(reg.take(sink(9)), Err(TakeError::NotFound));
    assert_eq!(reg.take(sink(2)), Ok(5));
}

#[test]
fn register_of_existing_id_is_rejected_and_keeps_the_entry() {
    let mut reg: Registry<StreamEdgeId, u32> = Registry::new();
    let edge = StreamEdgeId { up_fragment_id: 3, down_fragment_id: 4 };
    assert!(reg.register(edge, 10).is_ok());
    assert_eq!(reg.register(edge, 11), Err(RegisterError::AlreadyRegistered));
    assert_eq!(reg.take(edge), Ok(10));
}

#[test]
fn pipelined_draining_keeps_order_with_small_capacity() {
    let payloads: [&[u8]; 5] = [b"a", b"bb", b"ccc", b"dddd", b"eeeee"];
    let chunks: Vec<DataChunk> = payloads.iter().map(|p| chunk(p)).collect();
    let output = TaskOutput { chunks, outcome: ProducerOutcome::Completed };
    let pace = vec![true, false, false, true];
    let (items, count) = run_batch_exchange(output, 2, &pace);
    assert_eq!(count, 5);
    assert_eq!(items.len(), 5);
    for (i, p) in payloads.iter().enumerate() {
        assert_eq!(data_payload(&items[i]), *p);
    }
}

#[test]
fn capacity_one_with_empty_pace_still_forwards_everything() {
    let chunks = vec![chunk(b"x"), chunk(b"y"), chunk(b"z")];
    let output = TaskOutput { chunks, outcome: ProducerOutcome::Completed };
    let (items, count) = run_batch_exchange(output, 1, &Vec::new());
    assert_eq!(count, 3);
    assert_eq!(items.len(), 3);
    assert_eq!(data_payload(&items[0]), b"x");
    assert_eq!(data_payload(&items[1]), b"y");
    assert_eq!(data_payload(&items[2]), b"z");
}

#[test]
fn producer_failure_yields_data_then_exactly_one_terminal_error() {
    let chunks = vec![chunk(b"k0"), chunk(b"k1"), chunk(b"k2")];
    let output = TaskOutput { chunks, outcome: ProducerOutcome::Failed };
    let (items, count) = run_batch_exchange(output, 2, &vec![false, true]);
    assert_eq!(count, 3);
    assert_eq!(items.len(), 4);
    assert_eq!(data_payload(&items[0]), b"k0");
    assert_eq!(data_payload(&items[1]), b"k1");
    assert_eq!(data_payload(&items[2]), b"k2");
    assert!(matches!(items[3], BatchWireItem::Failure(TerminalError::ProducerFailure)));
}

#[test]
fn consumer_disconnect_stops_forwarding_without_error() {
    let chunks = vec![chunk(b"one"), chunk(b"two"), chunk(b"three")];
    let output = TaskOutput { chunks, outcome: ProducerOutcome::Completed };
    let items = run_batch_exchange_with_disconnect(output, 2, &Vec::new(), 1);
    assert_eq!(items.len(), 1);
    assert_eq!(data_payload(&items[0]), b"one");
}

#[test]
fn disconnect_before_any_read_observes_nothing() {
    let chunks = vec![chunk(b"one"), chunk(b"two")];
    let output = TaskOutput { chunks, outcome: ProducerOutcome::Failed };
    let items = run_batch_exchange_with_disconnect(output, 3, &Vec::new(), 0);
    assert_eq!(items.len(), 0);
}

#[test]
fn disconnect_limit_beyond_stream_observes_the_whole_stream() {
    let chunks = vec![chunk(b"one"), chunk(b"two")];
    let output = TaskOutput { chunks, outcome: ProducerOutcome::Completed };
    let items = run_batch_exchange_with_disconnect(output, 2, &vec![true], 10);
    assert_eq!(items.len(), 2);
    assert_eq!(data_payload(&items[0]), b"one");
    assert_eq!(data_payload(&items[1]), b"two");
}

#[test]
fn producer_close_with_no_error_ends_stream_cleanly() {
    let source = StreamSource {
        messages: vec![
            StreamMessage::Chunk(chunk(b"a")),
            StreamMessage::Chunk(chunk(b"b")),
            StreamMessage::Chunk(chunk(b"c")),
        ],
    };
    let items = run_stream_exchange(source, 2, &vec![true, false]);
    assert_eq!(items.len(), 3);
    assert_eq!(msg_bytes(&items[0]), &[0, b'a']);
    assert_eq!(msg_bytes(&items[1]), &[0, b'b']);
    assert_eq!(msg_bytes(&items[2]), &[0, b'c']);
    assert!(items.iter().all(|i| matches!(i, StreamWireItem::Msg(_))));
}

#[test]
fn stream_consumer_disconnect_exits_silently_mid_stream() {
    let source = StreamSource {
        messages: vec![
            StreamMessage::Chunk(chunk(b"m0")),
            StreamMessage::Chunk(chunk(b"m1")),
            StreamMessage::Barrier(Barrier { epoch: 2 }),
        ],
    };
    let items = run_stream_exchange_with_disconnect(source, 2, &Vec::new(), 2);
    assert_eq!(items.len(), 2);
    assert_eq!(msg_bytes(&items[0]), &[0, b'm', b'0'][..]);
    assert_eq!(msg_bytes(&items[1]), &[0, b'm', b'1'][..]);
    let empty = StreamSource { messages: vec![StreamMessage::Barrier(Barrier { epoch: 1 })] };
    let items = run_stream_exchange_with_disconnect(empty, 1, &Vec::new(), 0);
    assert_eq!(items.len(), 0);
}

#[test]
fn encode_failure_becomes_one_terminal_item_then_stream_end() {
    let outcomes = vec![
        EncodeOutcome::Encoded(vec![0, 1]),
        EncodeOutcome::Encoded(vec![0, 2]),
        EncodeOutcome::EncodeFailed,
        EncodeOutcome::Encoded(vec![0, 3]),
    ];
    let items = run_stream_exchange_encoded(outcomes, 2, &vec![true, false]);
    assert_eq!(items.len(), 3);
    assert_eq!(msg_bytes(&items[0]), &[0, 1][..]);
    assert_eq!(msg_bytes(&items[1]), &[0, 2][..]);
    assert!(matches!(items[2], StreamWireItem::Failure(TerminalError::EncodeFailure)));
}

#[test]
fn fully_encodable_script_is_forwarded_whole() {
    let outcomes = vec![EncodeOutcome::Encoded(vec![7]), EncodeOutcome::Encoded(vec![8, 9])];
    let items = run_stream_exchange_encoded(outcomes, 1, &Vec::new());
    assert_eq!(items.len(), 2);
    assert_eq!(msg_bytes(&items[0]), &[7][..]);
    assert_eq!(msg_bytes(&items[1]), &[8, 9][..]);
}

#[test]
fn get_data_serves_registered_chunks_then_not_found() {
    let mut service = ExchangeService::new();
    let s1 = sink(1);
    let output = TaskOutput {
        chunks: vec![chunk(b"chunk1"), chunk(b"chunk2")],
        outcome: ProducerOutcome::Completed,
    };
    assert!(service.register_sink(s1, output).is_ok());
    let (items, count) = service.get_data(peer(), s1, 10, &Vec::new()).expect("first take");
    assert_eq!(count, 2);
    assert_eq!(items.len(), 2);
    assert_eq!(data_payload(&items[0]), b"chunk1");
    assert_eq!(data_payload(&items[1]), b"chunk2");
    match service.get_data(peer(), s1, 10, &Vec::new()) {
        Err(code) => assert_eq!(code, StatusCode::NotFound),
        Ok(_) => panic!("a second take of the same sink must fail"),
    }
}

#[test]
fn get_stream_serves_barrier_and_chunk_then_clean_end() {
    let mut service = ExchangeService::new();
    let edge = StreamEdgeId { up_fragment_id: 1, down_fragment_id: 2 };
    let barrier_a = StreamMessage::Barrier(Barrier { epoch: 0x0102030405060708 });
    let chunk_b = StreamMessage::Chunk(chunk(b"B"));
    assert!(service.register_edge(edge, StreamSource { messages: vec![barrier_a, chunk_b] }).is_ok());
    let items = service.get_stream(peer(), edge, 10, &Vec::new()).expect("live edge");
    assert_eq!(items.len(), 2);
    assert_eq!(msg_bytes(&items[0]), &[1, 8, 7, 6, 5, 4, 3, 2, 1]);
    assert_eq!(msg_bytes(&items[1]), &[0, b'B']);
}

#[test]
fn get_data_on_never_registered_sink_is_not_found_immediately() {
    let mut service = ExchangeService::new();
    match service.get_data(peer(), sink(9), 10, &Vec::new()) {
        Err(code) => assert_eq!(code, StatusCode::NotFound),
        Ok(_) => panic!("an unregistered sink must not be served"),
    }
}

#[test]
fn missing_peer_fails_as_unavailable_before_registry_work() {
    let mut service = ExchangeService::new();
    let s1 = sink(1);
    let output = TaskOutput { chunks: vec![chunk(b"p")], outcome: ProducerOutcome::Completed };
    assert!(service.register_sink(s1, output).is_ok());
    match service.get_data(None, s1, 10, &Vec::new()) {
        Err(code) => assert_eq!(code, StatusCode::Unavailable),
        Ok(_) => panic!("a request without a peer must fail"),
    }
    // the registry was not touched: the sink is still takeable
    assert!(service.get_data(peer(), s1, 10, &Vec::new()).is_ok());
    let edge = StreamEdgeId { up_fragment_id: 5, down_fragment_id: 6 };
    assert!(service.register_edge(edge, StreamSource { messages: Vec::new() }).is_ok());
    match service.get_stream(None, edge, 10, &Vec::new()) {
        Err(code) => assert_eq!(code, StatusCode::Unavailable),
        Ok(_) => panic!("a request without a peer must fail"),
    }
    assert!(service.get_stream(peer(), edge, 10, &Vec::new()).is_ok());
}

#[test]
fn setup_errors_map_to_their_status_codes() {
    assert_eq!(status_of_setup_error(SetupError::ConnectionUnavailable), StatusCode::Unavailable);
    assert_eq!(status_of_setup_error(SetupError::NotFound), StatusCode::NotFound);
    assert_eq!(status_of_terminal_error(TerminalError::EncodeFailure), StatusCode::InternalError);
    assert_eq!(status_of_terminal_error(TerminalError::ProducerFailure), StatusCode::InternalError);
}

#[test]
fn encoding_frames_chunks_and_barriers_exactly() {
    let c = StreamMessage::Chunk(chunk(&[9, 9]));
    assert_eq!(encode_stream_message(&c), vec![0, 9, 9]);
    let empty = StreamMessage::Chunk(chunk(b""));
    assert_eq!(encode_stream_message(&empty), vec![0]);
    let b = StreamMessage::Barrier(Barrier { epoch: 0x0102030405060708 });
    assert_eq!(encode_stream_message(&b), vec![1, 8, 7, 6, 5, 4, 3, 2, 1]);
    let zero = StreamMessage::Barrier(Barrier { epoch: 0 });
    assert_eq!(encode_stream_message(&zero), vec![1, 0, 0, 0, 0, 0, 0, 0, 0]);
    let max = StreamMessage::Barrier(Barrier { epoch: u64::MAX });
    assert_eq!(encode_stream_message(&max), vec![1, 255, 255, 255, 255, 255, 255, 255, 255]);
}

#[test]
fn writer_counts_delivered_chunks_and_respects_backpressure() {
    let mut chan: BoundedChannel<BatchWireItem> = BoundedChannel::new(1);
    let mut writer = ExchangeWriter::new();
    assert_eq!(writer.written_chunks(), 0);
    assert!(matches!(writer.write(&mut chan, chunk(b"f")), WriteOutcome::Written));
    assert_eq!(writer.written_chunks(), 1);
    // the channel is at capacity: the chunk comes back, nothing is counted
    match writer.write(&mut chan, chunk(b"g")) {
        WriteOutcome::ChannelFull(c) => assert_eq!(c.payload, b"g"),
        _ => panic!("a full channel must hand the chunk back"),
    }
    assert_eq!(writer.written_chunks(), 1);
    assert!(matches!(
        writer.write_failure(&mut chan, TerminalError::ProducerFailure),
        FailureWriteOutcome::ChannelFull
    ));
}

#[test]
fn writer_abandons_items_once_the_consumer_is_gone() {
    let mut chan: BoundedChannel<BatchWireItem> = BoundedChannel::new(4);
    let mut writer = ExchangeWriter::new();
    chan.drop_receiver();
    assert!(matches!(writer.write(&mut chan, chunk(b"h")), WriteOutcome::ConsumerGone));
    assert_eq!(writer.written_chunks(), 0);
    assert!(matches!(
        writer.write_failure(&mut chan, TerminalError::ProducerFailure),
        FailureWriteOutcome::ConsumerGone
    ));
}

#[test]
fn channel_is_fifo_and_closes_once_drained() {
    let mut chan: BoundedChannel<u32> = BoundedChannel::new(2);
    assert!(matches!(chan.try_send(1), SendOutcome::Sent));
    assert!(matches!(chan.try_send(2), SendOutcome::Sent));
    match chan.try_send(3) {
        SendOutcome::Full(v) => assert_eq!(v, 3),
        _ => panic!("the third send must report a full channel"),
    }
    assert!(matches!(chan.recv(), RecvOutcome::Received(1)));
    assert!(matches!(chan.recv(), RecvOutcome::Received(2)));
    assert!(matches!(chan.recv(), RecvOutcome::Empty));
    chan.close_sender();
    assert!(matches!(chan.recv(), RecvOutcome::Closed));
}

#[test]
fn stream_loop_decisions_follow_the_protocol_table() {
    assert!(matches!(stream_forward_decision(None), ForwardDecision::StopClean));
    match stream_forward_decision(Some(EncodeOutcome::Encoded(vec![0, 7]))) {
        ForwardDecision::Forward(StreamWireItem::Msg(b)) => assert_eq!(b, vec![0, 7]),
        _ => panic!("an encoded message is forwarded"),
    }
    assert!(matches!(
        stream_forward_decision(Some(EncodeOutcome::EncodeFailed)),
        ForwardDecision::ForwardTerminalThenStop(StreamWireItem::Failure(
            TerminalError::EncodeFailure
        ))
    ));
    assert!(matches!(after_send(true), SendFollowUp::KeepForwarding));
    assert!(matches!(after_send(false), SendFollowUp::StopSilently));
}
