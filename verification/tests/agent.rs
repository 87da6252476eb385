use cluster_orchestrator::agent::{
    instance_report, InstanceServiceController, NodeResources, RetryPolicy, StartupAction,
    StartupClient, StartupPhase, WorkloadError, WorkloadManager, RETRY_DELAY_SECS,
    STARTUP_ATTEMPT_LIMIT,
};
use cluster_orchestrator::messages::{Signal, SignalInstruction};
use cluster_orchestrator::model::{
    Instance, InstanceKind, InstanceState, IpAddress, Resource, ResourceSummary,
};

fn summary(cpu: u64, memory: u64, disk: u64) -> ResourceSummary {
    ResourceSummary { cpu, memory, disk }
}

fn instance(id: &str) -> Instance {
    Instance {
        id: id.to_string(),
        name: format!("{}-name", id),
        kind: InstanceKind::Container,
        state: InstanceState::Scheduling,
        status_description: String::new(),
        num_restarts: 0,
        uri: "registry/image".to_string(),
        environment: vec![],
        resource: Some(Resource {
            limit: Some(summary(1, 256, 1)),
            usage: None,
        }),
        ports: vec![],
        ip: IpAddress { a: 10, b: 0, c: 0, d: 2 },
        namespace: "default".to_string(),
    }
}

#[test]
fn startup_recovers_when_the_address_accepts_within_budget() {
    // The Scheduler address refuses the first five attempts, then
    // accepts: the agent must get through without a fatal error.
    let policy = RetryPolicy::standard();
    let mut client = StartupClient::new();
    for _ in 0..5 {
        let action = client.on_attempt_outcome(&policy, false);
        assert_eq!(action, StartupAction::RetryAfterDelay(RETRY_DELAY_SECS));
        assert_eq!(client.phase, StartupPhase::Connecting);
    }
    let action = client.on_attempt_outcome(&policy, true);
    assert_eq!(action, StartupAction::NextAttempt);
    assert_eq!(client.phase, StartupPhase::Registering);
    // Registration accepted on the first try: the agent is registered.
    let action = client.on_attempt_outcome(&policy, true);
    assert_eq!(action, StartupAction::NextAttempt);
    assert_eq!(client.phase, StartupPhase::OpeningStream);
}

#[test]
fn startup_exhaustion_is_fatal() {
    // An address that refuses every attempt: after the whole budget the
    // machine demands termination, and no registration ever happened.
    let policy = RetryPolicy::standard();
    let mut client = StartupClient::new();
    for attempt in 1..=STARTUP_ATTEMPT_LIMIT {
        let action = client.on_attempt_outcome(&policy, false);
        if attempt < STARTUP_ATTEMPT_LIMIT {
            assert_eq!(action, StartupAction::RetryAfterDelay(RETRY_DELAY_SECS));
        } else {
            assert_eq!(action, StartupAction::Fatal);
        }
    }
    assert_eq!(client.phase, StartupPhase::Connecting);
}

#[test]
fn startup_reaches_streaming_after_three_successes() {
    let policy = RetryPolicy::standard();
    let mut client = StartupClient::new();
    assert_eq!(client.on_attempt_outcome(&policy, true), StartupAction::NextAttempt);
    assert_eq!(client.on_attempt_outcome(&policy, true), StartupAction::NextAttempt);
    assert_eq!(client.on_attempt_outcome(&policy, true), StartupAction::Established);
    assert_eq!(client.phase, StartupPhase::Streaming);
}

#[test]
fn failure_budget_is_per_phase() {
    let policy = RetryPolicy { delay_secs: 1, max_attempts: 3 };
    let mut client = StartupClient::new();
    assert_eq!(client.on_attempt_outcome(&policy, false), StartupAction::RetryAfterDelay(1));
    assert_eq!(client.on_attempt_outcome(&policy, false), StartupAction::RetryAfterDelay(1));
    // Success resets the budget for the next phase.
    assert_eq!(client.on_attempt_outcome(&policy, true), StartupAction::NextAttempt);
    assert_eq!(client.attempts, 0);
    assert_eq!(client.on_attempt_outcome(&policy, false), StartupAction::RetryAfterDelay(1));
    assert_eq!(client.on_attempt_outcome(&policy, false), StartupAction::RetryAfterDelay(1));
    assert_eq!(client.on_attempt_outcome(&policy, false), StartupAction::Fatal);
}

#[test]
fn node_resources_newest_measurement_wins() {
    let mut acc = NodeResources::new("N1".to_string(), summary(8, 16384, 200));
    assert_eq!(acc.used, summary(0, 0, 0));
    acc.record_measurement(summary(1, 100, 2));
    acc.record_measurement(summary(3, 300, 6));
    assert_eq!(acc.used, summary(3, 300, 6));
    assert_eq!(acc.total, summary(8, 16384, 200));
}

#[test]
fn heartbeat_report_carries_totals_and_latest_usage() {
    let mut acc = NodeResources::new("N1".to_string(), summary(8, 16384, 200));
    acc.record_measurement(summary(2, 512, 10));
    let report = acc.status_report();
    assert_eq!(report.id, "N1");
    assert_eq!(report.status, 1);
    assert_eq!(report.status_description, "");
    let res = report.resource.unwrap();
    assert_eq!(res.limit.unwrap(), summary(8, 16384, 200));
    assert_eq!(res.usage.unwrap(), summary(2, 512, 10));
}

#[test]
fn workload_manager_lifecycle_reports() {
    let mut wm = WorkloadManager::new("N1".to_string());
    let first = wm.create(instance("wl-aaaaa")).unwrap();
    assert_eq!(first.id, "wl-aaaaa");
    assert_eq!(first.status, 0);

    let running = wm.start_instance(&"wl-aaaaa".to_string()).unwrap();
    assert_eq!(running.status, 1);

    let stopped = wm
        .signal(&SignalInstruction {
            instance_id: "wl-aaaaa".to_string(),
            signal: Signal::Stop,
        })
        .unwrap();
    assert_eq!(stopped.status, 2);
    assert_eq!(wm.instances[0].state, InstanceState::Stopped);
}

#[test]
fn kill_signal_reports_failure() {
    let mut wm = WorkloadManager::new("N1".to_string());
    wm.create(instance("wl-kkkkk")).unwrap();
    let report = wm
        .signal(&SignalInstruction {
            instance_id: "wl-kkkkk".to_string(),
            signal: Signal::Kill,
        })
        .unwrap();
    assert_eq!(report.status, 3);
    assert_eq!(wm.instances[0].state, InstanceState::Failed);
}

#[test]
fn signal_for_unknown_instance_is_a_local_error() {
    let mut wm = WorkloadManager::new("N1".to_string());
    let r = wm.signal(&SignalInstruction {
        instance_id: "ghost".to_string(),
        signal: Signal::Stop,
    });
    assert_eq!(r.unwrap_err(), WorkloadError::InstanceNotFound);
}

#[test]
fn duplicate_create_is_refused_locally() {
    let mut wm = WorkloadManager::new("N1".to_string());
    wm.create(instance("wl-ddddd")).unwrap();
    let r = wm.create(instance("wl-ddddd"));
    assert_eq!(r.unwrap_err(), WorkloadError::DuplicateInstance);
    assert_eq!(wm.instances.len(), 1);
}

#[test]
fn instance_service_controller_delegates() {
    let mut svc = InstanceServiceController::new("N1".to_string());
    let rep = svc.create(instance("wl-sssss")).unwrap();
    assert_eq!(rep.id, "wl-sssss");
    let rep = svc
        .signal(&SignalInstruction {
            instance_id: "wl-sssss".to_string(),
            signal: Signal::Stop,
        })
        .unwrap();
    assert_eq!(rep.status, 2);
}

#[test]
fn instance_report_reflects_the_record() {
    let mut i = instance("wl-mmmmm");
    i.state = InstanceState::Running;
    i.status_description = "healthy".to_string();
    let rep = instance_report(&i);
    assert_eq!(rep.id, "wl-mmmmm");
    assert_eq!(rep.status, 1);
    assert_eq!(rep.status_description, "healthy");
    assert_eq!(rep.resource.unwrap().limit.unwrap(), summary(1, 256, 1));
}
