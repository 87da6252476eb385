//! The Scheduler's event funnel: every externally triggered state change
//! arrives as one [`Event`], is routed to the matching orchestrator
//! operation, and produces exactly one [`Reply`] for the channel the
//! caller attached to the event. Dispatching is total: a failing
//! operation yields a failure reply, never a panic, so one bad event can
//! never take the dispatch loop down and later events keep flowing.

use vstd::prelude::*;
use crate::model::{Instance, InstanceState, IpAddress};
use crate::messages::{NodeRegisterRequest, NodeRegisterResponse, NodeUnregisterRequest, NodeUnregisterResponse, NodeStatus};
use crate::orchestrator::{Orchestrator, OrchestratorError, spec_has_node, spec_has_instance, spec_node_fits, spec_with_state, PlacedInstance};
use crate::model::spec_limit_of;
use crate::{NodeIdentifier, InstanceIdentifier};

verus! {

/// One externally triggered request, as the network-facing services hand
/// it to the dispatch loop. The reply channel the original caller waits
/// on is owned by the transport layer; here each event answers with
/// exactly one [`Reply`] of the matching variant.
pub enum Event {
    InstanceCreate(Instance),
    InstanceStop(InstanceIdentifier),
    InstanceDestroy(InstanceIdentifier),
    NodeRegister(NodeRegisterRequest, IpAddress),
    NodeUnregister(NodeUnregisterRequest),
    NodeStatus(NodeStatus),
}

/// The single reply an event produces. For instance lifecycle events the
/// success payload is the hosting node's identifier, to which the caller
/// forwards the actual create, stop or destroy call; the stop and destroy
/// transitions are recorded once that node acknowledged, through
/// [`Orchestrator::record_instance_stopped`] and
/// [`Orchestrator::record_instance_destroyed`].
pub enum Reply {
    InstanceCreate(Result<NodeIdentifier, OrchestratorError>),
    InstanceStop(Result<NodeIdentifier, OrchestratorError>),
    InstanceDestroy(Result<NodeIdentifier, OrchestratorError>),
    NodeRegister(Result<NodeRegisterResponse, OrchestratorError>),
    NodeUnregister(Result<NodeUnregisterResponse, OrchestratorError>),
    NodeStatus(Result<(), OrchestratorError>),
}

/// Handles a stop request: finds the node the instance runs on, so the
/// caller can forward the stop instruction there; an unknown instance is
/// answered with `NotFound`.
pub struct InstanceStopHandler {}

impl InstanceStopHandler {
    /// The stop route from event to orchestrator: a lookup, leaving the
    /// registries untouched until the hosting node acknowledges.
    pub fn handle(orchestrator: &Orchestrator, id: &InstanceIdentifier) -> (r: Result<
        NodeIdentifier,
        OrchestratorError,
    >)
        ensures
            match r {
                Ok(nid) => exists|j: int|
                    0 <= j < orchestrator.instances@.len()
                        && #[trigger] orchestrator.instances@[j].instance.id@ == id@
                        && orchestrator.instances@[j].node_id@ == nid@,
                Err(e) => e == OrchestratorError::NotFound && !spec_has_instance(
                    orchestrator.instances@,
                    id@,
                ),
            },
    {
        orchestrator.instance_target_node(id)
    }
}

/// Routes one event to the matching orchestrator operation and returns
/// its reply — exactly one, of the event's own variant, whatever the
/// outcome. Failures are carried in the reply; the dispatcher itself
/// cannot fail, and the registries change only as the operation's own
/// contract states. In particular a status report for an unregistered
/// node is answered with `UnknownNode` and creates no node entry.
pub fn dispatch(orchestrator: &mut Orchestrator, event: Event) -> (r: Reply)
    requires
        old(orchestrator).wf(),
    ensures
        final(orchestrator).wf(),
        match event {
            Event::InstanceCreate(instance) => {
                &&& match r {
                    Reply::InstanceCreate(Ok(nid)) => {
                        &&& exists|j: int|
                            0 <= j < old(orchestrator).nodes@.len()
                                && #[trigger] old(orchestrator).nodes@[j].id@ == nid@
                                && spec_node_fits(
                                old(orchestrator).nodes@[j],
                                old(orchestrator).instances@,
                                spec_limit_of(instance.resource),
                            )
                        &&& final(orchestrator).instances@ == old(orchestrator).instances@.push(
                            PlacedInstance { instance: instance, node_id: nid },
                        )
                    },
                    Reply::InstanceCreate(Err(OrchestratorError::NoCapacity)) => {
                        &&& forall|j: int|
                            0 <= j < old(orchestrator).nodes@.len() ==> !spec_node_fits(
                                #[trigger] old(orchestrator).nodes@[j],
                                old(orchestrator).instances@,
                                spec_limit_of(instance.resource),
                            )
                        &&& final(orchestrator).instances@ == old(orchestrator).instances@
                    },
                    Reply::InstanceCreate(Err(OrchestratorError::Internal)) => {
                        &&& spec_has_instance(old(orchestrator).instances@, instance.id@)
                        &&& final(orchestrator).instances@ == old(orchestrator).instances@
                    },
                    _ => false,
                }
                &&& final(orchestrator).nodes@ == old(orchestrator).nodes@
            },
            Event::InstanceStop(id) => {
                &&& final(orchestrator).nodes@ == old(orchestrator).nodes@
                &&& final(orchestrator).instances@ == old(orchestrator).instances@
                &&& match r {
                    Reply::InstanceStop(Ok(nid)) => exists|j: int|
                        0 <= j < old(orchestrator).instances@.len()
                            && #[trigger] old(orchestrator).instances@[j].instance.id@ == id@
                            && old(orchestrator).instances@[j].node_id@ == nid@,
                    Reply::InstanceStop(Err(e)) => e == OrchestratorError::NotFound
                        && !spec_has_instance(old(orchestrator).instances@, id@),
                    _ => false,
                }
            },
            Event::InstanceDestroy(id) => {
                &&& final(orchestrator).nodes@ == old(orchestrator).nodes@
                &&& final(orchestrator).instances@ == old(orchestrator).instances@
                &&& match r {
                    Reply::InstanceDestroy(Ok(nid)) => exists|j: int|
                        0 <= j < old(orchestrator).instances@.len()
                            && #[trigger] old(orchestrator).instances@[j].instance.id@ == id@
                            && old(orchestrator).instances@[j].node_id@ == nid@,
                    Reply::InstanceDestroy(Err(e)) => e == OrchestratorError::NotFound
                        && !spec_has_instance(old(orchestrator).instances@, id@),
                    _ => false,
                }
            },
            Event::NodeRegister(request, source) => {
                &&& final(orchestrator).instances@ == old(orchestrator).instances@
                &&& match r {
                    Reply::NodeRegister(Ok(resp)) => resp.ip == source
                        && request.certificate@.len() > 0 && spec_has_node(
                        final(orchestrator).nodes@,
                        request.certificate@,
                    ),
                    Reply::NodeRegister(Err(e)) => e == OrchestratorError::Internal
                        && request.certificate@.len() == 0 && final(orchestrator).nodes@ == old(
                        orchestrator,
                    ).nodes@,
                    _ => false,
                }
            },
            Event::NodeUnregister(request) => {
                match r {
                    Reply::NodeUnregister(Ok(resp)) => {
                        &&& resp.id == request.id
                        &&& !spec_has_node(final(orchestrator).nodes@, request.id@)
                        &&& forall|k: int|
                            0 <= k < old(orchestrator).instances@.len()
                                ==> #[trigger] final(orchestrator).instances@[k] == (if old(
                                orchestrator,
                            ).instances@[k].node_id@ == request.id@ {
                                spec_with_state(
                                    old(orchestrator).instances@[k],
                                    InstanceState::Failed,
                                )
                            } else {
                                old(orchestrator).instances@[k]
                            })
                    },
                    Reply::NodeUnregister(Err(e)) => {
                        &&& e == OrchestratorError::NotFound
                        &&& !spec_has_node(old(orchestrator).nodes@, request.id@)
                        &&& final(orchestrator).nodes@ == old(orchestrator).nodes@
                        &&& final(orchestrator).instances@ == old(orchestrator).instances@
                    },
                    _ => false,
                }
            },
            Event::NodeStatus(report) => {
                &&& final(orchestrator).instances@ == old(orchestrator).instances@
                &&& final(orchestrator).nodes@.len() == old(orchestrator).nodes@.len()
                &&& match r {
                    Reply::NodeStatus(Ok(())) => spec_has_node(
                        old(orchestrator).nodes@,
                        report.id@,
                    ),
                    Reply::NodeStatus(Err(e)) => {
                        &&& e == OrchestratorError::UnknownNode
                        &&& !spec_has_node(old(orchestrator).nodes@, report.id@)
                        &&& final(orchestrator).nodes@ == old(orchestrator).nodes@
                    },
                    _ => false,
                }
            },
        },
{
    match event {
        Event::InstanceCreate(instance) => Reply::InstanceCreate(
            orchestrator.create_instance(instance),
        ),
        Event::InstanceStop(id) => Reply::InstanceStop(
            InstanceStopHandler::handle(orchestrator, &id),
        ),
        Event::InstanceDestroy(id) => Reply::InstanceDestroy(
            orchestrator.instance_target_node(&id),
        ),
        Event::NodeRegister(request, source) => Reply::NodeRegister(
            orchestrator.register_node(request, source),
        ),
        Event::NodeUnregister(request) => Reply::NodeUnregister(
            orchestrator.unregister_node(request),
        ),
        Event::NodeStatus(report) => Reply::NodeStatus(orchestrator.update_node_status(report)),
    }
}

} // verus!
