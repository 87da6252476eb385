use cluster_orchestrator::messages::{
    InstanceStatus,
    NodeRegisterRequest, NodeStatus, NodeUnregisterRequest,
};
use cluster_orchestrator::model::{
    Instance, InstanceKind, InstanceState, IpAddress, Port, Resource, ResourceSummary,
};
use cluster_orchestrator::orchestrator::{Orchestrator, OrchestratorError};

fn summary(cpu: u64, memory: u64, disk: u64) -> ResourceSummary {
    ResourceSummary { cpu, memory, disk }
}

fn instance(id: &str, cpu: u64, memory: u64, disk: u64) -> Instance {
    Instance {
        id: id.to_string(),
        name: format!("{}-name", id),
        kind: InstanceKind::Container,
        state: InstanceState::Scheduling,
        status_description: String::new(),
        num_restarts: 0,
        uri: "registry/image".to_string(),
        environment: vec!["K=V".to_string()],
        resource: Some(Resource {
            limit: Some(summary(cpu, memory, disk)),
            usage: None,
        }),
        ports: vec![Port { source: 80, dest: 8080 }],
        ip: IpAddress { a: 10, b: 0, c: 0, d: 1 },
        namespace: "default".to_string(),
    }
}

fn source_addr() -> IpAddress {
    IpAddress { a: 192, b: 168, c: 0, d: 7 }
}

/// Registers a node and reports its declared capacity, the way a real
/// node does: registration carries only the credential, the first
/// heartbeat carries the totals.
fn register_with_capacity(o: &mut Orchestrator, id: &str, cpu: u64, memory: u64, disk: u64) {
    let resp = o
        .register_node(
            NodeRegisterRequest { certificate: id.to_string() },
            source_addr(),
        )
        .expect("registration must succeed");
    assert_eq!(resp.ip, source_addr());
    o.update_node_status(NodeStatus {
        id: id.to_string(),
        status: 1,
        status_description: String::new(),
        resource: Some(Resource {
            limit: Some(summary(cpu, memory, disk)),
            usage: Some(summary(0, 0, 0)),
        }),
    })
    .expect("status for a registered node must be accepted");
}

#[test]
fn placement_succeeds_on_qualifying_node() {
    let mut o = Orchestrator::new();
    register_with_capacity(&mut o, "N1", 4, 8192, 100);
    let node_id = o
        .create_instance(instance("wl-aaaaa", 2, 2048, 10))
        .expect("a qualifying node exists");
    assert_eq!(node_id, "N1");
    let placed = o.get_instance(&"wl-aaaaa".to_string()).expect("recorded");
    assert_eq!(placed.node_id, "N1");
    assert_eq!(placed.instance.state, InstanceState::Scheduling);
}

#[test]
fn placement_scenario_with_capacity_accounting() {
    // Capacity 4 cpu; a 2-cpu instance fits, a following 3-cpu one must
    // not, since 2 + 3 > 4 — and the node's own reported usage stays
    // untouched by placement until the node itself reports.
    let mut o = Orchestrator::new();
    register_with_capacity(&mut o, "N1", 4, 8192, 100);
    let node_id = o
        .create_instance(instance("wl-11111", 2, 2048, 10))
        .expect("first placement fits");
    assert_eq!(node_id, "N1");
    let n = o.get_node(&"N1".to_string()).expect("registered");
    assert_eq!(n.usage, summary(0, 0, 0));
    assert_eq!(n.total, summary(4, 8192, 100));
    let second = o.create_instance(instance("wl-22222", 3, 1, 1));
    assert_eq!(second.unwrap_err(), OrchestratorError::NoCapacity);
    // The node reports usage: only now does the recorded usage move.
    o.update_node_status(NodeStatus {
        id: "N1".to_string(),
        status: 1,
        status_description: String::new(),
        resource: Some(Resource {
            limit: Some(summary(4, 8192, 100)),
            usage: Some(summary(2, 2048, 10)),
        }),
    })
    .unwrap();
    let n = o.get_node(&"N1".to_string()).unwrap();
    assert_eq!(n.usage, summary(2, 2048, 10));
}

#[test]
fn no_capacity_leaves_registry_unchanged() {
    let mut o = Orchestrator::new();
    register_with_capacity(&mut o, "N1", 1, 1024, 5);
    let r = o.create_instance(instance("wl-xxxxx", 2, 8, 1));
    assert_eq!(r.unwrap_err(), OrchestratorError::NoCapacity);
    assert!(o.get_instance(&"wl-xxxxx".to_string()).is_none());
    assert_eq!(o.instances.len(), 0);
}

#[test]
fn two_requests_for_one_unit_of_capacity() {
    // Exactly one unit of qualifying capacity: of two requests for it,
    // the first placement consumes the unit and the second fails.
    let mut o = Orchestrator::new();
    register_with_capacity(&mut o, "N1", 1, 1024, 10);
    let first = o.create_instance(instance("wl-aaaaa", 1, 512, 5));
    assert_eq!(first.unwrap(), "N1");
    let second = o.create_instance(instance("wl-bbbbb", 1, 512, 5));
    assert_eq!(second.unwrap_err(), OrchestratorError::NoCapacity);
    assert_eq!(o.instances.len(), 1);
}

#[test]
fn stop_keeps_instance_queryable_until_destroy() {
    let mut o = Orchestrator::new();
    register_with_capacity(&mut o, "N1", 4, 4096, 50);
    o.create_instance(instance("wl-ccccc", 1, 256, 1)).unwrap();
    let id = "wl-ccccc".to_string();

    let target = o.instance_target_node(&id).unwrap();
    assert_eq!(target, "N1");
    o.record_instance_stopped(&id).unwrap();
    // Between the stop and the destroy the instance is still queryable,
    // in Stopped state.
    let p = o.get_instance(&id).expect("still recorded after stop");
    assert_eq!(p.instance.state, InstanceState::Stopped);

    o.record_instance_destroyed(&id).unwrap();
    assert!(o.get_instance(&id).is_none());
    assert_eq!(
        o.record_instance_destroyed(&id).unwrap_err(),
        OrchestratorError::NotFound
    );
}

#[test]
fn stop_unknown_instance_is_not_found() {
    let mut o = Orchestrator::new();
    assert_eq!(
        o.instance_target_node(&"ghost".to_string()).unwrap_err(),
        OrchestratorError::NotFound
    );
    assert_eq!(
        o.record_instance_stopped(&"ghost".to_string()).unwrap_err(),
        OrchestratorError::NotFound
    );
}

#[test]
fn status_for_unregistered_node_is_rejected() {
    let mut o = Orchestrator::new();
    let r = o.update_node_status(NodeStatus {
        id: "stranger".to_string(),
        status: 1,
        status_description: String::new(),
        resource: None,
    });
    assert_eq!(r.unwrap_err(), OrchestratorError::UnknownNode);
    assert!(o.get_node(&"stranger".to_string()).is_none());
    assert_eq!(o.nodes.len(), 0);
    // Legitimate work continues afterwards.
    register_with_capacity(&mut o, "N1", 2, 2048, 10);
    assert!(o.get_node(&"N1".to_string()).is_some());
}

#[test]
fn reregistration_replaces_the_record() {
    let mut o = Orchestrator::new();
    register_with_capacity(&mut o, "N1", 4, 4096, 40);
    o.register_node(
        NodeRegisterRequest { certificate: "N1".to_string() },
        source_addr(),
    )
    .unwrap();
    assert_eq!(o.nodes.len(), 1);
    // The fresh record starts from zeroed capacity and usage again.
    let n = o.get_node(&"N1".to_string()).unwrap();
    assert_eq!(n.total, summary(0, 0, 0));
    assert_eq!(n.usage, summary(0, 0, 0));
}

#[test]
fn empty_credential_is_rejected() {
    let mut o = Orchestrator::new();
    let r = o.register_node(
        NodeRegisterRequest { certificate: String::new() },
        source_addr(),
    );
    assert_eq!(r.unwrap_err(), OrchestratorError::Internal);
    assert_eq!(o.nodes.len(), 0);
}

#[test]
fn unregister_fails_instances_on_the_node() {
    let mut o = Orchestrator::new();
    register_with_capacity(&mut o, "N1", 4, 4096, 40);
    register_with_capacity(&mut o, "N2", 4, 4096, 40);
    o.create_instance(instance("wl-on-n1", 1, 1, 1)).unwrap();
    let resp = o
        .unregister_node(NodeUnregisterRequest { id: "N1".to_string() })
        .unwrap();
    assert_eq!(resp.id, "N1");
    assert!(o.get_node(&"N1".to_string()).is_none());
    assert!(o.get_node(&"N2".to_string()).is_some());
    // The orphaned instance is not dropped: it is observable as Failed.
    let p = o.get_instance(&"wl-on-n1".to_string()).expect("kept");
    assert_eq!(p.instance.state, InstanceState::Failed);
}

#[test]
fn unregister_unknown_node_is_not_found() {
    let mut o = Orchestrator::new();
    let r = o.unregister_node(NodeUnregisterRequest { id: "nope".to_string() });
    assert_eq!(r.unwrap_err(), OrchestratorError::NotFound);
}

#[test]
fn duplicate_instance_id_is_internal_error() {
    let mut o = Orchestrator::new();
    register_with_capacity(&mut o, "N1", 8, 8192, 80);
    o.create_instance(instance("wl-dup", 1, 1, 1)).unwrap();
    let r = o.create_instance(instance("wl-dup", 1, 1, 1));
    assert_eq!(r.unwrap_err(), OrchestratorError::Internal);
    assert_eq!(o.instances.len(), 1);
}

#[test]
fn instance_report_overwrites_state_and_usage_only() {
    let mut o = Orchestrator::new();
    register_with_capacity(&mut o, "N1", 8, 8192, 80);
    o.create_instance(instance("wl-rrrrr", 2, 512, 4)).unwrap();
    o.update_instance_status(InstanceStatus {
        id: "wl-rrrrr".to_string(),
        status: 1,
        status_description: "running fine".to_string(),
        resource: Some(Resource {
            limit: Some(summary(9, 9, 9)),
            usage: Some(summary(1, 200, 2)),
        }),
    })
    .unwrap();
    let p = o.get_instance(&"wl-rrrrr".to_string()).unwrap();
    assert_eq!(p.instance.state, InstanceState::Running);
    assert_eq!(p.instance.status_description, "running fine");
    let res = p.instance.resource.as_ref().unwrap();
    // The declared limit is fixed at creation; only usage follows reports.
    assert_eq!(res.limit.unwrap(), summary(2, 512, 4));
    assert_eq!(res.usage.unwrap(), summary(1, 200, 2));
}

#[test]
fn unknown_state_code_falls_back_to_scheduling() {
    let mut o = Orchestrator::new();
    register_with_capacity(&mut o, "N1", 8, 8192, 80);
    o.create_instance(instance("wl-kkkkk", 1, 1, 1)).unwrap();
    o.update_instance_status(InstanceStatus {
        id: "wl-kkkkk".to_string(),
        status: 42,
        status_description: String::new(),
        resource: None,
    })
    .unwrap();
    let p = o.get_instance(&"wl-kkkkk".to_string()).unwrap();
    assert_eq!(p.instance.state, InstanceState::Scheduling);
}

#[test]
fn placement_picks_a_node_that_fits_among_several() {
    let mut o = Orchestrator::new();
    register_with_capacity(&mut o, "small", 1, 10, 1);
    register_with_capacity(&mut o, "large", 16, 16384, 500);
    let node = o.create_instance(instance("wl-big", 8, 8000, 100)).unwrap();
    assert_eq!(node, "large");
}
