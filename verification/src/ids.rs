//! Identifiers addressing one task output partition or one streaming edge.

use vstd::prelude::*;

verus! {

/// Addresses exactly one output partition of exactly one task: the composite
/// of the query and stage the task belongs to, the task's index within the
/// stage, and the output partition index. Equality is structural; a value is
/// used once to look up and remove an entry from the task output registry.
#[derive(Clone, Copy, Debug, PartialEq, Eq, Structural)]
pub struct TaskSinkId {
    pub query_id: u64,
    pub stage_id: u32,
    pub task_id: u32,
    pub sink_id: u32,
}

/// Addresses one directed edge of the streaming dataflow graph: the pair of
/// the upstream and the downstream fragment. Within the stream edge registry,
/// at most one unconsumed receive end exists per edge at any instant.
#[derive(Clone, Copy, Debug, PartialEq, Eq, Structural)]
pub struct StreamEdgeId {
    pub up_fragment_id: u32,
    pub down_fragment_id: u32,
}

} // verus!
