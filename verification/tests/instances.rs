use kudo::external_api::instance::controller::{InstanceController, InstanceStep};
use kudo::external_api::instance::model::{
    generate_ip, Instance, InstanceError, Port, Resource, ResourceSummary,
};
use kudo::external_api::instance::service::{InstanceService, InstanceSupervisor, Stored};
use kudo::external_api::workload::model::{Ports, Ressources, Type as WorkloadType, Workload};
use kudo::net::{Ipv4Addr, SocketAddrV4};
use kudo::proto::controller::{InstanceState, Type};
use kudo::proto::scheduler;

fn workload() -> Workload {
    Workload {
        id: "w1".to_string(),
        name: "postgres".to_string(),
        workload_type: WorkloadType::Container,
        uri: "docker.io/postgres".to_string(),
        environment: vec!["A=0".to_string()],
        resources: Ressources { cpu: 2, memory: 512, disk: 10 },
        ports: vec![Ports { source: 5432, destination: 15432 }],
        namespace: "prod".to_string(),
    }
}

fn instance(namespace: &str) -> Instance {
    let mut i = Instance::from(workload());
    i.namespace = namespace.to_string();
    i
}

fn status(id: &str, n: i32) -> scheduler::InstanceStatus {
    scheduler::InstanceStatus { id: id.to_string(), status: n, description: String::new() }
}

#[test]
fn instance_from_workload() {
    let i = Instance::from(workload());
    assert_eq!(i.id, "w1");
    assert_eq!(i.name, "postgres");
    assert_eq!(i.instance_type, Type::Container);
    assert_eq!(i.state, InstanceState::Scheduling);
    assert_eq!(i.status_description, "");
    assert_eq!(i.num_restarts, 0);
    assert_eq!(i.namespace, "default");
    assert_eq!(i.ports, vec![Port { source: 5432, dest: 15432 }]);
    assert_eq!(
        i.resource,
        Some(Resource { limit: Some(ResourceSummary { cpu: 2, memory: 512, disk: 10 }), usage: None })
    );
    assert_eq!(i.ip, SocketAddrV4::new(Ipv4Addr::new(10, 0, 0, 1), 0));
}

#[test]
fn instance_into_scheduler_message() {
    let mut i = Instance::from(workload());
    i.ip = SocketAddrV4::new(Ipv4Addr::new(10, 0, 3, 7), 9000);
    let m: scheduler::Instance = i.into();
    assert_eq!(m.id, "w1");
    assert_eq!(m.instance_type, 0);
    assert_eq!(m.status, 8);
    assert_eq!(m.environnement, vec!["A=0".to_string()]);
    assert_eq!(m.ip, "10.0.3.7:9000");
    assert_eq!(m.ports, vec![scheduler::Port { source: 5432, destination: 15432 }]);
    assert_eq!(
        m.resource,
        Some(scheduler::Resource {
            limit: Some(scheduler::ResourceSummary { cpu: 2, memory: 512, disk: 10 }),
            usage: None
        })
    );
    assert_eq!(m.uri, "docker.io/postgres");
}

#[test]
fn state_numbers_roundtrip() {
    for n in 0..10 {
        assert_eq!(InstanceState::from_i32(n).unwrap().number(), n);
    }
    assert_eq!(InstanceState::from_i32(10), None);
    assert_eq!(InstanceState::from_i32(-1), None);
    assert_eq!(InstanceState::Terminated.number(), 5);
    assert_eq!(generate_ip(), Ipv4Addr::new(0, 0, 0, 0));
}

#[test]
fn read_of_instance() {
    let service = InstanceService::new();
    let ns = "prod".to_string();
    assert_eq!(service.get_instance(Stored::Present(instance("prod")), &ns).unwrap().id, "w1");
    assert!(matches!(
        service.get_instance(Stored::Present(instance("dev")), &ns),
        Err(InstanceError::InstanceNotFound)
    ));
    assert!(matches!(service.get_instance(Stored::Unreadable, &ns), Err(InstanceError::InstanceNotFound)));
    assert!(matches!(service.get_instance(Stored::Absent, &ns), Err(InstanceError::InstanceNotFound)));
}

#[test]
fn starting_instances() {
    let service = InstanceService::new();
    let (supervisor, last) = service.retrieve_and_start_instance(true, instance("prod"), None).unwrap();
    assert_eq!(last, SocketAddrV4::new(Ipv4Addr::new(10, 0, 0, 1), 0));
    assert_eq!(supervisor.request().ip, "10.0.0.1:0");
    assert_eq!(supervisor.request().id, "w1");
    assert!(supervisor.on_stream_closed());

    let mut stale = instance("prod");
    stale.ip = SocketAddrV4::new(Ipv4Addr::new(10, 0, 0, 7), 0);
    let previous = Some(SocketAddrV4::new(Ipv4Addr::new(10, 0, 0, 255), 0));
    let (supervisor, last) = service.retrieve_and_start_instance(true, stale, previous).unwrap();
    assert_eq!(last, SocketAddrV4::new(Ipv4Addr::new(10, 0, 1, 0), 0));
    assert_eq!(supervisor.request().ip, "10.0.1.0:0");
    assert!(matches!(
        service.retrieve_and_start_instance(false, instance("prod"), previous),
        Err(InstanceError::InstanceNotFound)
    ));

    let previous = Some(SocketAddrV4::new(Ipv4Addr::new(10, 0, 0, 255), 80));
    let (supervisor, last) =
        service.retrieve_and_start_instance_from_workload(Some(workload()), previous).unwrap();
    assert_eq!(last, SocketAddrV4::new(Ipv4Addr::new(10, 0, 1, 0), 80));
    let request = supervisor.request();
    assert_eq!(request.ip, "10.0.1.0:80");
    assert_eq!(request.id, "w1");
    assert_eq!(request.status, InstanceState::Scheduling.number());
    assert!(matches!(
        service.retrieve_and_start_instance_from_workload(None, previous),
        Err(InstanceError::InstanceNotFound)
    ));

    let supervisor = service.start(Instance::from(workload()), SocketAddrV4::new(Ipv4Addr::new(10, 0, 0, 9), 0));
    assert_eq!(supervisor.request().ip, "10.0.0.9:0");
}

#[test]
fn deleting_instances() {
    let service = InstanceService::new();
    assert_eq!(service.delete_instance(true, instance("prod")).unwrap().id, "w1");
    assert!(matches!(service.delete_instance(false, instance("prod")), Err(InstanceError::InstanceNotFound)));
    assert!(service.after_destroy(true).is_ok());
    match service.after_destroy(false) {
        Err(InstanceError::Grpc(m)) => assert_eq!(m, "Error stopping instance"),
        _ => panic!("expected a gRPC error"),
    }
}

#[test]
fn supervisor_restarts_until_terminated() {
    let request = Instance::from(workload()).into();
    let mut supervisor = InstanceSupervisor::new(request);
    supervisor.on_stream_opened();
    assert!(supervisor.on_stream_closed());
    supervisor.on_stream_opened();
    assert_eq!(supervisor.on_status(&status("w1", 0)), "w1");
    assert_eq!(supervisor.on_status(&status("w1", 5)), "w1");
    assert!(!supervisor.on_stream_closed());
    supervisor.on_stream_opened();
    supervisor.on_status(&status("w1", 5));
    supervisor.on_status(&status("w1", 42));
    assert!(supervisor.on_stream_closed());
}

#[test]
fn put_instance_steps() {
    match InstanceController::put_instance(Ok(instance("prod"))) {
        InstanceStep::StartInstance(i) => assert_eq!(i.id, "w1"),
        _ => panic!("expected a start"),
    }
    assert!(matches!(
        InstanceController::put_instance(Err(InstanceError::InstanceNotFound)),
        InstanceStep::LookupWorkload
    ));
    assert!(matches!(InstanceController::put_instance_on_workload(true), InstanceStep::StartFromWorkload));
    match InstanceController::put_instance_on_workload(false) {
        InstanceStep::Reply(r) => assert_eq!((r.status, r.body.as_str()), (404, "Instance not found")),
        _ => panic!("expected a reply"),
    }
    let r = InstanceController::put_instance_on_started(Ok(()), false);
    assert_eq!((r.status, r.body.as_str()), (201, "Instance creating and starting..."));
    let r = InstanceController::put_instance_on_started(Ok(()), true);
    assert_eq!((r.status, r.body.as_str()), (201, "Instance creating..."));
    let r = InstanceController::put_instance_on_started(Err(InstanceError::InstanceNotFound), true);
    assert_eq!((r.status, r.body.as_str()), (500, "Internal Server Error"));
}

#[test]
fn delete_patch_get_instance_steps() {
    assert!(matches!(InstanceController::delete_instance(Ok(instance("prod"))), InstanceStep::DeleteInstance(_)));
    match InstanceController::delete_instance(Err(InstanceError::InstanceNotFound)) {
        InstanceStep::Reply(r) => assert_eq!((r.status, r.body.as_str()), (404, "Instance not found")),
        _ => panic!("expected a reply"),
    }
    let r = InstanceController::delete_instance_on_deleted(Ok(()));
    assert_eq!((r.status, r.body.as_str()), (200, "Instance deleted"));
    assert!(matches!(InstanceController::patch_instance(Ok(instance("prod"))), InstanceStep::DeleteInstance(_)));
    assert!(matches!(
        InstanceController::patch_instance_on_deleted(Ok(()), instance("prod")),
        InstanceStep::StartInstance(_)
    ));
    match InstanceController::patch_instance_on_deleted(Err(InstanceError::InstanceNotFound), instance("prod")) {
        InstanceStep::Reply(r) => assert_eq!(r.status, 500),
        _ => panic!("expected a reply"),
    }
    assert_eq!(InstanceController::patch_instance_on_started(Ok(())).status, 201);
    assert!(matches!(InstanceController::get_instance(true), InstanceStep::LookupInstance));
    match InstanceController::get_instance(false) {
        InstanceStep::Reply(r) => assert_eq!((r.status, r.body.as_str()), (404, "Instance not founded")),
        _ => panic!("expected a reply"),
    }
    assert!(matches!(InstanceController::get_instance_on_instance(Ok(instance("prod"))), InstanceStep::Serialize(_)));
    let r = InstanceController::get_instance_on_serialized(Some("{}".to_string()));
    assert_eq!((r.status, r.body.as_str()), (200, "{}"));
    assert_eq!(InstanceController::get_instance_on_serialized(None).status, 500);
    assert_eq!(
        InstanceController::get_etcd_address(),
        SocketAddrV4::new(Ipv4Addr::new(0, 0, 0, 0), 0)
    );
}
