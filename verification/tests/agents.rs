use kudo::node_agent::error::WorkloadError;
use kudo::node_agent::workload::Workload;
use kudo::node_agent::workload_lib;
use kudo::node_agent::workload_manager::{SignalAction, SignalError, WorkloadManager};
use kudo::node_agent::workload_manager_lib::{self, Instruction};
use kudo::proto::agent::{Instance, Resource, ResourceSummary, Signal, SignalInstruction};
use kudo::proto::scheduler;
use kudo::scheduler::{Event, Manager, Storage};

fn agent_instance(id: &str) -> Instance {
    Instance {
        id: id.to_string(),
        name: "somename".to_string(),
        instance_type: 0,
        status: 0,
        uri: "debian:latest".to_string(),
        environment: vec!["A=0".to_string()],
        resource: Some(Resource {
            limit: Some(ResourceSummary { cpu: i32::MAX, memory: i32::MAX, disk: i32::MAX }),
            usage: Some(ResourceSummary { cpu: 0, memory: 0, disk: 0 }),
        }),
        ports: vec![],
        ip: "127.0.0.1".to_string(),
    }
}

fn scheduler_instance(id: &str, status: i32) -> scheduler::Instance {
    scheduler::Instance {
        id: id.to_string(),
        name: "n".to_string(),
        instance_type: 0,
        status,
        environnement: vec![],
        ip: "10.0.0.1:0".to_string(),
        ports: vec![],
        resource: None,
        uri: "u".to_string(),
    }
}

fn is_mock_id(s: &str) -> bool {
    s.parse::<u32>().map(|n| n < 666 && n.to_string() == s).unwrap_or(false)
}

#[test]
fn constructor() {
    let wm = WorkloadManager::new();
    assert_eq!(wm.listener_count(), 0);
    assert_eq!(wm.workload_count(), 0);
}

#[test]
fn create() {
    let mut wm = WorkloadManager::new();
    let workload = wm.create(agent_instance("someuuid"));
    assert!(is_mock_id(&workload.get_id()));
    assert_eq!(wm.listener_count(), 0);
    assert_eq!(wm.workload_count(), 0);
    assert!(wm.receive().is_none());
    assert_eq!(wm.to_string(), "workloads: 0, listeners: 0");
}

#[test]
fn signal() {
    let mut wm = WorkloadManager::default();
    wm.create(agent_instance("someuuid"));
    let signal = SignalInstruction { instance: Some(agent_instance("someuuid")), signal: 1 };
    assert_eq!(wm.signal(signal), Ok(SignalAction::Kill(None)));
    for _ in 0..2 {
        let recv = wm.receive().unwrap();
        assert!(recv.status == 3 || recv.status == 4);
    }
    assert_eq!(wm.listener_count(), 0);
}

#[test]
fn kill_signal_reports_stopping_then_destroying() {
    let mut wm = WorkloadManager::new();
    let signal = SignalInstruction { instance: Some(agent_instance("someuuid")), signal: 1 };
    assert!(matches!(wm.signal(signal), Ok(SignalAction::Kill(None))));
    let first = wm.receive().unwrap();
    assert_eq!((first.id.as_str(), first.status), ("someuuid", 3));
    let second = wm.receive().unwrap();
    assert_eq!((second.id.as_str(), second.status), ("someuuid", 4));
    assert!(wm.receive().is_none());
    assert_eq!(wm.workload_count(), 0);
    assert_eq!(wm.listener_count(), 0);
}

#[test]
fn statuses_come_out_in_the_order_sent() {
    let mut wm = WorkloadManager::new();
    let a = SignalInstruction { instance: Some(agent_instance("a")), signal: 0 };
    let b = SignalInstruction { instance: Some(agent_instance("b")), signal: 7 };
    let c = SignalInstruction { instance: Some(agent_instance("c")), signal: 1 };
    assert!(wm.signal(a).is_ok());
    assert!(wm.signal(b).is_err());
    assert!(wm.signal(c).is_ok());
    let mut out = Vec::new();
    while let Some(s) = wm.receive() {
        out.push((s.id, s.status));
    }
    let expected: Vec<(String, i32)> = vec![
        ("a".to_string(), 3),
        ("a".to_string(), 4),
        ("b".to_string(), 3),
        ("c".to_string(), 3),
        ("c".to_string(), 4),
    ];
    assert_eq!(out, expected);
}

#[test]
fn stop_signal_and_refusals() {
    let mut wm = WorkloadManager::new();
    let missing = SignalInstruction { instance: None, signal: 0 };
    let err = wm.signal(missing).unwrap_err();
    assert_eq!(err, SignalError::MissingInstance);
    assert!(err.is_invalid_argument());
    assert_eq!(err.message(), "Please provide an 'Instance'");
    assert!(wm.receive().is_none());
    let bad_signal = SignalInstruction { instance: Some(agent_instance("a")), signal: 7 };
    let err = wm.signal(bad_signal).unwrap_err();
    assert_eq!(err.message(), "This signal does not exist");
    assert!(!err.is_invalid_argument());
    assert_eq!(wm.receive().unwrap().status, 3);
    assert!(wm.receive().is_none());
    let stop = SignalInstruction { instance: Some(agent_instance("a")), signal: 0 };
    assert_eq!(wm.signal(stop), Ok(SignalAction::Stop(None)));
}

#[test]
fn workloads_have_small_numeric_ids() {
    for _ in 0..50 {
        let w = Workload::create(&agent_instance("x"));
        assert!(is_mock_id(&w.get_id()));
        let l = workload_lib::Workload::create();
        assert!(is_mock_id(&l.getId()));
    }
}

#[test]
fn library_manager_keys_workloads_by_uuid() {
    let mut wm = workload_manager_lib::WorkloadManager::new();
    let key = wm.create(agent_instance("ignored"));
    assert_eq!(key.len(), 36);
    let unknown = Instruction { instance: agent_instance("ignored"), signal: Signal::Stop };
    assert_eq!(wm.signal(unknown).unwrap_err().details(), "This workload does not exist");
    let stop = Instruction { instance: agent_instance(&key), signal: Signal::Kill };
    match wm.signal(stop) {
        Ok(SignalAction::Kill(Some(id))) => assert!(is_mock_id(&id)),
        other => panic!("unexpected {:?}", other),
    }
    let again = Instruction { instance: agent_instance(&key), signal: Signal::Stop };
    assert!(wm.signal(again).is_err());
}

#[test]
fn workload_error_keeps_message() {
    assert_eq!(WorkloadError::new("boom").details(), "boom");
}

#[test]
fn storage_finds_first_match_and_updates_it() {
    let mut storage = Storage::new();
    storage.add_instance(scheduler_instance("a", 0));
    storage.add_instance(scheduler_instance("b", 0));
    storage.add_instance(scheduler_instance("a", 1));
    assert_eq!(storage.get_instance(&"a".to_string()).unwrap().status, 0);
    assert!(storage.get_instance(&"z".to_string()).is_none());
    storage.update_instance(&"a".to_string(), 7);
    let all = storage.get_instances();
    assert_eq!(all.iter().map(|i| i.status).collect::<Vec<_>>(), vec![7, 0, 1]);
}

#[test]
fn manager_applies_events() {
    let mut manager = Manager::new();
    manager.handle_event(Event::InstanceCreate(scheduler_instance("a", 8)));
    manager.handle_event(Event::InstanceUpdate(scheduler::InstanceAction { id: "a".to_string(), action: 1 }));
    assert_eq!(manager.storage().get_instance(&"a".to_string()).unwrap().status, 3);
    assert_eq!(manager.storage().get_instances().len(), 1);
}
