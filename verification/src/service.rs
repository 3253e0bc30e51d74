//! Service-level request binding: the two network-facing request handlers.
//! Each validates the presence of a usable peer address before any registry
//! work, takes exclusive ownership of the addressed handle from the
//! matching registry, and serves the forwarding run for that request;
//! setup failures are translated to wire-level status codes rather than
//! propagated as internal errors.
//!
//! In the running system each admitted request spawns one independent
//! forwarding task and hands the channel's receive end back immediately.
//! Here the handler serves the whole run and returns everything the
//! consumer observes, with `pace` standing for the consumer's own
//! interleaving; the pipelining itself is the forwarding runs' contract.

use vstd::prelude::*;

use crate::batch::{expected_batch_wire, run_batch_exchange, TaskOutput};
use crate::ids::{StreamEdgeId, TaskSinkId};
use crate::message::{status_of_setup_error, BatchWireItem, SetupError, StatusCode, StreamWireItem};
use crate::registry::{Registry, RegisterError};
use crate::stream::{run_stream_exchange, stream_items_match, StreamSource};

verus! {

/// The network address of the calling peer, kept for logging and
/// diagnostics only; its absence fails a request as `Unavailable` before
/// any registry work.
pub struct PeerAddr {
    pub addr: String,
}

/// The exchange service: binds an incoming request to the corresponding
/// registry entry. Its two registries are the only shared mutable state of
/// the exchange layer, and each is touched once per request, by one atomic
/// take.
pub struct ExchangeService {
    sinks: Registry<TaskSinkId, TaskOutput>,
    edges: Registry<StreamEdgeId, StreamSource>,
}

impl ExchangeService {
    /// The task output registry's table.
    pub closed spec fn sinks(self) -> Registry<TaskSinkId, TaskOutput> {
        self.sinks
    }

    /// The stream edge registry's table.
    pub closed spec fn edges(self) -> Registry<StreamEdgeId, StreamSource> {
        self.edges
    }

    /// Both registries hold each identifier at most once.
    pub open spec fn wf(self) -> bool {
        self.sinks().wf() && self.edges().wf()
    }

    /// A service with empty registries.
    pub fn new() -> (s: Self)
        ensures
            s.wf(),
            forall|id: TaskSinkId| !s.sinks().has(id),
            forall|id: StreamEdgeId| !s.edges().has(id),
    {
        ExchangeService { sinks: Registry::new(), edges: Registry::new() }
    }

    /// Registers a finished or finishing task's output under a fresh sink
    /// identifier; fails, changing nothing, if the identifier is already
    /// registered (a caller bug).
    pub fn register_sink(&mut self, id: TaskSinkId, output: TaskOutput) -> (r: Result<
        (),
        RegisterError,
    >)
        requires
            old(self).wf(),
        ensures
            final(self).wf(),
            final(self).edges() == old(self).edges(),
            old(self).sinks().has(id) ==> r is Err && *final(self) == *old(self),
            !old(self).sinks().has(id) ==> r is Ok && final(self).sinks().has(id) && final(self).sinks().value_of(id) == output,
            forall|k: TaskSinkId| k != id ==> final(self).sinks().has(k) == old(self).sinks().has(k),
            forall|k: TaskSinkId|
                k != id && old(self).sinks().has(k) ==> final(self).sinks().value_of(k) == old(self).sinks().value_of(k),
    {
        self.sinks.register(id, output)
    }

    /// Registers the receive end of a long-lived streaming edge, performed
    /// by the dataflow-wiring runtime when the edge is established.
    pub fn register_edge(&mut self, id: StreamEdgeId, source: StreamSource) -> (r: Result<
        (),
        RegisterError,
    >)
        requires
            old(self).wf(),
        ensures
            final(self).wf(),
            final(self).sinks() == old(self).sinks(),
            old(self).edges().has(id) ==> r is Err && *final(self) == *old(self),
            !old(self).edges().has(id) ==> r is Ok && final(self).edges().has(id) && final(self).edges().value_of(id) == source,
            forall|k: StreamEdgeId| k != id ==> final(self).edges().has(k) == old(self).edges().has(
                k,
            ),
            forall|k: StreamEdgeId|
                k != id && old(self).edges().has(k) ==> final(self).edges().value_of(k) == old(self).edges().value_of(k),
    {
        self.edges.register(id, source)
    }

    /// The batch request handler. With no identifiable peer the request
    /// fails as `Unavailable` and the registries are untouched. Otherwise
    /// the sink's output handle is taken — atomically, at most once — and
    /// an unknown or already consumed sink fails as `NotFound` with nothing
    /// served. An admitted request is served the owed wire sequence in
    /// full, with the writer's delivered-chunk count.
    pub fn get_data(
        &mut self,
        peer: Option<PeerAddr>,
        id: TaskSinkId,
        capacity: usize,
        pace: &Vec<bool>,
    ) -> (r: Result<(Vec<BatchWireItem>, usize), StatusCode>)
        requires
            old(self).wf(),
            capacity >= 1,
        ensures
            final(self).wf(),
            final(self).edges() == old(self).edges(),
            peer is None ==> r == Result::<(Vec<BatchWireItem>, usize), StatusCode>::Err(
                StatusCode::Unavailable,
            ) && *final(self) == *old(self),
            peer is Some && !old(self).sinks().has(id) ==> r == Result::<
                (Vec<BatchWireItem>, usize),
                StatusCode,
            >::Err(StatusCode::NotFound) && *final(self) == *old(self),
            peer is Some && old(self).sinks().has(id) ==> {
                &&& r matches Ok(resp)
                &&& resp.0@ == expected_batch_wire(
                    old(self).sinks().value_of(id).chunks@,
                    old(self).sinks().value_of(id).outcome,
                )
                &&& resp.1 == old(self).sinks().value_of(id).chunks@.len()
                &&& !final(self).sinks().has(id)
            },
            forall|k: TaskSinkId| k != id ==> final(self).sinks().has(k) == old(self).sinks().has(k),
            forall|k: TaskSinkId|
                k != id && old(self).sinks().has(k) ==> final(self).sinks().value_of(k) == old(self).sinks().value_of(k),
    {
        if peer.is_none() {
            return Err(status_of_setup_error(SetupError::ConnectionUnavailable));
        }
        match self.sinks.take(id) {
            Err(_) => Err(status_of_setup_error(SetupError::NotFound)),
            Ok(output) => Ok(run_batch_exchange(output, capacity, pace)),
        }
    }

    /// The streaming request handler. Peer validation and the at-most-once
    /// take mirror the batch handler, keyed by the fragment pair; an
    /// unknown or not yet deployed edge fails as `NotFound`. An admitted
    /// request is served every message of the edge, re-encoded, in FIFO
    /// order, up to the clean end of the stream.
    pub fn get_stream(
        &mut self,
        peer: Option<PeerAddr>,
        id: StreamEdgeId,
        capacity: usize,
        pace: &Vec<bool>,
    ) -> (r: Result<Vec<StreamWireItem>, StatusCode>)
        requires
            old(self).wf(),
            capacity >= 1,
        ensures
            final(self).wf(),
            final(self).sinks() == old(self).sinks(),
            peer is None ==> r == Result::<Vec<StreamWireItem>, StatusCode>::Err(
                StatusCode::Unavailable,
            ) && *final(self) == *old(self),
            peer is Some && !old(self).edges().has(id) ==> r == Result::<
                Vec<StreamWireItem>,
                StatusCode,
            >::Err(StatusCode::NotFound) && *final(self) == *old(self),
            peer is Some && old(self).edges().has(id) ==> {
                &&& r matches Ok(resp)
                &&& stream_items_match(resp@, old(self).edges().value_of(id).messages@)
                &&& !final(self).edges().has(id)
            },
            forall|k: StreamEdgeId| k != id ==> final(self).edges().has(k) == old(self).edges().has(
                k,
            ),
            forall|k: StreamEdgeId|
                k != id && old(self).edges().has(k) ==> final(self).edges().value_of(k) == old(self).edges().value_of(k),
    {
        if peer.is_none() {
            return Err(status_of_setup_error(SetupError::ConnectionUnavailable));
        }
        match self.edges.take(id) {
            Err(_) => Err(status_of_setup_error(SetupError::NotFound)),
            Ok(source) => Ok(run_stream_exchange(source, capacity, pace)),
        }
    }
}

} // verus!
