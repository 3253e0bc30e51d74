//! The plan layer's side of the interface. Query planning is an external
//! collaborator of the exchange layer: plans compile into the physical
//! task graph whose task outputs and streaming edges the registries serve.

use vstd::prelude::*;

verus! {

/// A leaf plan node standing for a relational table scan. The optimizer
/// that rewrites such nodes is outside this subsystem; the type marks where
/// the task graphs served by the exchange layer originate.
#[derive(Clone, Copy, Debug)]
pub struct LogicalScan {}

} // verus!
