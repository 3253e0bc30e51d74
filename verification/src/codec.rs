//! The wire encoding of stream messages. The exchange layer only promises
//! that an encode step exists and is applied to every forwarded message;
//! the format here frames a message as a tag byte followed by its body,
//! with a barrier's epoch in little-endian byte order.

use vstd::prelude::*;

use crate::message::StreamMessage;

verus! {

/// The tag byte of an encoded data chunk.
pub const CHUNK_TAG: u8 = 0;

/// The tag byte of an encoded barrier.
pub const BARRIER_TAG: u8 = 1;

/// The eight bytes of `x`, least significant first.
pub open spec fn spec_u64_le_bytes(x: u64) -> Seq<u8> {
    seq![
        (x % 256) as u8,
        ((x / 256) % 256) as u8,
        ((x / 65536) % 256) as u8,
        ((x / 16777216) % 256) as u8,
        ((x / 4294967296) % 256) as u8,
        ((x / 1099511627776) % 256) as u8,
        ((x / 281474976710656) % 256) as u8,
        ((x / 72057594037927936) % 256) as u8,
    ]
}

/// The wire bytes of one stream message: a chunk is its tag byte followed
/// by the chunk payload, a barrier is its tag byte followed by the epoch's
/// eight little-endian bytes.
pub open spec fn spec_encode_stream_message(m: StreamMessage) -> Seq<u8> {
    match m {
        StreamMessage::Chunk(c) => seq![CHUNK_TAG] + c.payload@,
        StreamMessage::Barrier(b) => seq![BARRIER_TAG] + spec_u64_le_bytes(b.epoch),
    }
}

/// Encodes one stream message to its exact wire bytes.
pub fn encode_stream_message(m: &StreamMessage) -> (r: Vec<u8>)
    ensures
        r@ == spec_encode_stream_message(*m),
{
    let mut out: Vec<u8> = Vec::new();
    match m {
        StreamMessage::Chunk(c) => {
            out.push(CHUNK_TAG);
            let n = c.payload.len();
            let mut i: usize = 0;
            while i < n
                invariant
                    i <= n,
                    n == c.payload@.len(),
                    out@ == seq![CHUNK_TAG] + c.payload@.take(i as int),
                decreases n - i,
            {
                out.push(c.payload[i]);
                proof {
                    assert(out@ =~= seq![CHUNK_TAG] + c.payload@.take(i + 1 as int));
                }
                i = i + 1;
            }
            proof {
                assert(c.payload@.take(n as int) =~= c.payload@);
            }
        },
        StreamMessage::Barrier(b) => {
            let x = b.epoch;
            out.push(BARRIER_TAG);
            out.push((x % 256) as u8);
            out.push(((x / 256) % 256) as u8);
            out.push(((x / 65536) % 256) as u8);
            out.push(((x / 16777216) % 256) as u8);
            out.push(((x / 4294967296) % 256) as u8);
            out.push(((x / 1099511627776) % 256) as u8);
            out.push(((x / 281474976710656) % 256) as u8);
            out.push(((x / 72057594037927936) % 256) as u8);
            proof {
                assert(out@ =~= seq![BARRIER_TAG] + spec_u64_le_bytes(x));
            }
        },
    }
    out
}

} // verus!
