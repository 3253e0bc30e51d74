//! Inter-task exchange data plane of a distributed query-execution engine.
//!
//! Intermediate results produced by one compute task are streamed, on demand,
//! to the consuming task that requested them. The crate provides the two
//! take-once registries (task outputs and stream edges), the bounded channel
//! that carries wire items to a consumer, the exchange writer that adapts a
//! task's output into channel items, the batch and streaming forwarding
//! protocols, and the service-level request binding with its error
//! translation.

pub mod batch;
pub mod channel;
pub mod codec;
pub mod ids;
pub mod message;
pub mod plan;
pub mod registry;
pub mod service;
pub mod stream;
pub mod writer;
