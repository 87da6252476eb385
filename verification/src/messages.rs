//! Messages exchanged between the Scheduler, the Node Agents and the
//! external API controller. Their shapes are kept field for field as the
//! services expect them; lifecycle states travel as integer codes.

use vstd::prelude::*;
use crate::model::{InstanceState, IpAddress, Resource};
use crate::InstanceIdentifier;
use crate::NodeIdentifier;

verus! {

/// Registration request a Node Agent presents to the Scheduler. The
/// credential is an opaque string; the agent presents its own identifier.
#[derive(Clone, Debug)]
pub struct NodeRegisterRequest {
    pub certificate: String,
}

/// The network identity the Scheduler assigns to a freshly registered node.
#[derive(Clone, Debug)]
pub struct NodeRegisterResponse {
    pub ip: IpAddress,
}

/// Request to remove a node from the Scheduler's registry.
#[derive(Clone, Debug)]
pub struct NodeUnregisterRequest {
    pub id: NodeIdentifier,
}

/// Acknowledgment of an unregistration.
#[derive(Clone, Debug)]
pub struct NodeUnregisterResponse {
    pub id: NodeIdentifier,
}

/// One periodic resource report of a node: its declared totals and its
/// freshly sampled consumption.
#[derive(Clone, Debug)]
pub struct NodeStatus {
    pub id: NodeIdentifier,
    pub status: i32,
    pub status_description: String,
    pub resource: Option<Resource>,
}

/// One lifecycle report for a single instance, originated by the node
/// that executes it.
#[derive(Clone, Debug)]
pub struct InstanceStatus {
    pub id: InstanceIdentifier,
    pub status: i32,
    pub status_description: String,
    pub resource: Option<Resource>,
}

/// Control signal kinds a node understands for a local instance.
#[derive(Clone, Copy, Debug, PartialEq, Eq, Structural)]
pub enum Signal {
    Stop,
    Kill,
}

/// Instruction to deliver a control signal to one instance on a node.
#[derive(Clone, Debug)]
pub struct SignalInstruction {
    pub instance_id: InstanceIdentifier,
    pub signal: Signal,
}

/// Wire code of an instance lifecycle state.
pub open spec fn spec_state_code(s: InstanceState) -> i32 {
    match s {
        InstanceState::Scheduling => 0,
        InstanceState::Running => 1,
        InstanceState::Stopped => 2,
        InstanceState::Failed => 3,
    }
}

/// Executable twin of [`spec_state_code`].
pub fn state_code(s: InstanceState) -> (r: i32)
    ensures
        r == spec_state_code(s),
{
    match s {
        InstanceState::Scheduling => 0,
        InstanceState::Running => 1,
        InstanceState::Stopped => 2,
        InstanceState::Failed => 3,
    }
}

/// The state a wire code denotes, if any.
pub open spec fn spec_state_from_code(c: i32) -> Option<InstanceState> {
    if c == 0 {
        Some(InstanceState::Scheduling)
    } else if c == 1 {
        Some(InstanceState::Running)
    } else if c == 2 {
        Some(InstanceState::Stopped)
    } else if c == 3 {
        Some(InstanceState::Failed)
    } else {
        None
    }
}

/// Executable twin of [`spec_state_from_code`].
pub fn state_from_code(c: i32) -> (r: Option<InstanceState>)
    ensures
        r == spec_state_from_code(c),
{
    if c == 0 {
        Some(InstanceState::Scheduling)
    } else if c == 1 {
        Some(InstanceState::Running)
    } else if c == 2 {
        Some(InstanceState::Stopped)
    } else if c == 3 {
        Some(InstanceState::Failed)
    } else {
        None
    }
}

/// Decoding an unknown state code falls back to `Scheduling`, the
/// earliest lifecycle state, so a report can never be lost to a bad code.
pub open spec fn spec_state_or_default(c: i32) -> InstanceState {
    match spec_state_from_code(c) {
        Some(s) => s,
        None => InstanceState::Scheduling,
    }
}

/// Executable twin of [`spec_state_or_default`].
pub fn state_or_default(c: i32) -> (r: InstanceState)
    ensures
        r == spec_state_or_default(c),
{
    match state_from_code(c) {
        Some(s) => s,
        None => InstanceState::Scheduling,
    }
}

/// Every state's code decodes back to that state.
pub proof fn lemma_state_code_round_trip(s: InstanceState)
    ensures
        spec_state_from_code(spec_state_code(s)) == Some(s),
{
}

/// Distinct states carry distinct codes.
pub proof fn lemma_state_code_injective(a: InstanceState, b: InstanceState)
    ensures
        spec_state_code(a) == spec_state_code(b) ==> a == b,
{
}

} // verus!
