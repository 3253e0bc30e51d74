//! The items that flow through the exchange: data chunks, stream messages,
//! and the wire-level items a consumer observes, including terminal errors.

use vstd::prelude::*;

verus! {

/// A batch of rows, the unit of transfer between tasks. The payload is the
/// chunk's row data as produced by the task; how rows are laid out inside it
/// is no concern of the exchange layer, which moves chunks whole.
pub struct DataChunk {
    pub payload: Vec<u8>,
}

/// A consistency-checkpoint marker flowing through a streaming edge,
/// interleaved with data chunks.
#[derive(Clone, Copy, Debug, PartialEq, Eq, Structural)]
pub struct Barrier {
    pub epoch: u64,
}

/// One message carried by a streaming edge: either a data chunk or a
/// control barrier.
pub enum StreamMessage {
    Chunk(DataChunk),
    Barrier(Barrier),
}

/// An error reported in-band as the single, final item of a response stream,
/// after zero or more successful items.
#[derive(Clone, Copy, Debug, PartialEq, Eq, Structural)]
pub enum TerminalError {
    /// A message could not be converted to wire format.
    EncodeFailure,
    /// The underlying task or dataflow step failed.
    ProducerFailure,
}

/// A wire item of the batch protocol: a forwarded data chunk, or the one
/// terminal error closing a failed stream.
pub enum BatchWireItem {
    Data(DataChunk),
    Failure(TerminalError),
}

/// A wire item of the streaming protocol: an encoded stream message, or the
/// one terminal error closing a failed stream.
pub enum StreamWireItem {
    Msg(Vec<u8>),
    Failure(TerminalError),
}

/// Status codes surfaced to the network layer for failures during request
/// setup, before any response stream exists.
#[derive(Clone, Copy, Debug, PartialEq, Eq, Structural)]
pub enum StatusCode {
    /// Normal stream, possibly followed by no items.
    Success,
    /// The calling peer could not be identified.
    Unavailable,
    /// The sink or edge identifier is unknown or already consumed.
    NotFound,
    /// Any other failure.
    InternalError,
}

/// A failure during request setup, surfaced synchronously to the caller.
#[derive(Clone, Copy, Debug, PartialEq, Eq, Structural)]
pub enum SetupError {
    /// The calling peer could not be identified; the registry is not touched.
    ConnectionUnavailable,
    /// The sink or edge is unknown or was already taken.
    NotFound,
}

/// Translates a setup failure into the status code owed to the network
/// layer: an unidentified peer is `Unavailable`, an unknown or already
/// consumed sink or edge is `NotFound`.
pub fn status_of_setup_error(e: SetupError) -> (s: StatusCode)
    ensures
        e is ConnectionUnavailable ==> s == StatusCode::Unavailable,
        e is NotFound ==> s == StatusCode::NotFound,
{
    match e {
        SetupError::ConnectionUnavailable => StatusCode::Unavailable,
        SetupError::NotFound => StatusCode::NotFound,
    }
}

/// Translates an in-band terminal error into the status code its wire frame
/// carries: every failure after setup is an internal error to the caller.
pub fn status_of_terminal_error(e: TerminalError) -> (s: StatusCode)
    ensures
        s == StatusCode::InternalError,
{
    match e {
        TerminalError::EncodeFailure => StatusCode::InternalError,
        TerminalError::ProducerFailure => StatusCode::InternalError,
    }
}

} // verus!
