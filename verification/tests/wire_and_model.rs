use cluster_orchestrator::messages::{state_code, state_from_code, state_or_default, InstanceStatus};
use cluster_orchestrator::model::{
    instance_from_workload, limit_of, Instance, InstanceKind, InstanceState, IpAddress, Port,
    Resource, ResourceSummary, Workload, SUFFIX_LENGTH,
};
use cluster_orchestrator::wire::{from_wire, to_wire};

fn summary(cpu: u64, memory: u64, disk: u64) -> ResourceSummary {
    ResourceSummary { cpu, memory, disk }
}

fn full_instance() -> Instance {
    Instance {
        id: "wl-zzzzz".to_string(),
        name: "wl-zzzzz-name".to_string(),
        kind: InstanceKind::Container,
        state: InstanceState::Running,
        status_description: "scheduler-side note".to_string(),
        num_restarts: 4,
        uri: "registry/image:tag".to_string(),
        environment: vec!["A=1".to_string(), "B=2".to_string()],
        resource: Some(Resource {
            limit: Some(summary(2, 2048, 10)),
            usage: Some(summary(1, 1024, 5)),
        }),
        ports: vec![
            Port { source: 80, dest: 8080 },
            Port { source: 443, dest: 8443 },
        ],
        ip: IpAddress { a: 10, b: 1, c: 2, d: 3 },
        namespace: "prod".to_string(),
    }
}

#[test]
fn wire_round_trip_preserves_carried_fields() {
    let original = full_instance();
    let crossed = from_wire(to_wire(&original));
    assert_eq!(crossed.id, original.id);
    assert_eq!(crossed.name, original.name);
    assert_eq!(crossed.kind, original.kind);
    assert_eq!(crossed.state, original.state);
    assert_eq!(crossed.environment, original.environment);
    assert_eq!(crossed.ip, original.ip);
    assert_eq!(crossed.ports, original.ports);
    let res = crossed.resource.unwrap();
    assert_eq!(res.limit.unwrap(), summary(2, 2048, 10));
    assert_eq!(res.usage.unwrap(), summary(1, 1024, 5));
    assert_eq!(crossed.uri, original.uri);
    // What the wire does not carry comes back as rest defaults.
    assert_eq!(crossed.status_description, "");
    assert_eq!(crossed.num_restarts, 0);
    assert_eq!(crossed.namespace, "");
}

#[test]
fn wire_encoding_uses_the_documented_codes() {
    let w = to_wire(&full_instance());
    assert_eq!(w.status, 1);
    assert_eq!(w.kind, 0);
    assert_eq!(w.ports[0].source, 80);
    assert_eq!(w.ports[0].destination, 8080);
}

#[test]
fn state_codes_round_trip_and_unknown_codes_fall_back() {
    let states = [
        InstanceState::Scheduling,
        InstanceState::Running,
        InstanceState::Stopped,
        InstanceState::Failed,
    ];
    for s in states {
        assert_eq!(state_from_code(state_code(s)), Some(s));
    }
    assert_eq!(state_from_code(99), None);
    assert_eq!(state_or_default(99), InstanceState::Scheduling);
    assert_eq!(state_or_default(2), InstanceState::Stopped);
}

#[test]
fn workload_materializes_with_suffixed_identity() {
    let workload = Workload {
        id: "wl".to_string(),
        name: "hello".to_string(),
        uri: "registry/hello".to_string(),
        environment: vec!["MODE=fast".to_string()],
        namespace: "default".to_string(),
        resources: summary(2, 2048, 10),
        ports: vec![Port { source: 80, dest: 8080 }],
    };
    let i = instance_from_workload(workload);
    assert_eq!(i.id.len(), "wl".len() + 1 + SUFFIX_LENGTH);
    assert!(i.id.starts_with("wl-"));
    assert!(i.id[3..].chars().all(|c| c.is_ascii_alphanumeric()));
    assert!(i.name.starts_with("hello-"));
    assert_eq!(i.state, InstanceState::Scheduling);
    assert_eq!(i.kind, InstanceKind::Container);
    assert_eq!(i.num_restarts, 0);
    let res = i.resource.unwrap();
    assert_eq!(res.limit.unwrap(), summary(2, 2048, 10));
    assert!(res.usage.is_none());
    assert_eq!(i.namespace, "default");
}

#[test]
fn two_materializations_get_distinct_identifiers() {
    let workload = Workload {
        id: "wl".to_string(),
        name: "hello".to_string(),
        uri: "registry/hello".to_string(),
        environment: vec![],
        namespace: "default".to_string(),
        resources: summary(1, 1, 1),
        ports: vec![],
    };
    let a = instance_from_workload(workload.clone());
    let b = instance_from_workload(workload);
    assert_ne!(a.id, b.id);
}

#[test]
fn update_instance_replaces_reported_fields_but_keeps_the_limit() {
    let mut i = full_instance();
    i.update_instance(InstanceStatus {
        id: i.id.clone(),
        status: 2,
        status_description: "stopped by operator".to_string(),
        resource: Some(Resource {
            limit: Some(summary(9, 9, 9)),
            usage: Some(summary(0, 0, 0)),
        }),
    });
    assert_eq!(i.state, InstanceState::Stopped);
    assert_eq!(i.status_description, "stopped by operator");
    let res = i.resource.unwrap();
    // The declared limit is fixed at creation; a report cannot move it.
    assert_eq!(res.limit.unwrap(), summary(2, 2048, 10));
    assert_eq!(res.usage.unwrap(), summary(0, 0, 0));
    assert_eq!(i.id, "wl-zzzzz");
}

#[test]
fn update_instance_with_unknown_code_schedules() {
    let mut i = full_instance();
    i.update_instance(InstanceStatus {
        id: i.id.clone(),
        status: -7,
        status_description: String::new(),
        resource: None,
    });
    assert_eq!(i.state, InstanceState::Scheduling);
    let res = i.resource.unwrap();
    assert_eq!(res.limit.unwrap(), summary(2, 2048, 10));
    assert!(res.usage.is_none());
}

#[test]
fn missing_resource_record_counts_as_zero_demand() {
    assert_eq!(limit_of(&None), summary(0, 0, 0));
    assert_eq!(
        limit_of(&Some(Resource { limit: None, usage: None })),
        summary(0, 0, 0)
    );
    assert_eq!(
        limit_of(&Some(Resource {
            limit: Some(summary(3, 4, 5)),
            usage: None,
        })),
        summary(3, 4, 5)
    );
}
