//! Core logic of a small cluster orchestrator: a Scheduler that registers
//! worker nodes, places workload instances onto nodes with sufficient
//! declared capacity, and tracks instance lifecycle from status reports;
//! and the node-agent side: local resource accounting, a workload execution
//! table, and the bounded-retry startup protocol towards the Scheduler.

use vstd::prelude::*;

pub mod agent;
pub mod controller;
pub mod dispatcher;
pub mod messages;
pub mod model;
pub mod orchestrator;
pub mod wire;

verus! {

/// Opaque unique identifier of a worker node.
pub type NodeIdentifier = String;

/// Opaque unique identifier of a workload instance.
pub type InstanceIdentifier = String;

} // verus!
