use kudo::external_api::workload::controller::WorkloadController;
use kudo::external_api::workload::filter::FilterService;
use kudo::external_api::workload::model::{
    Pagination, Ports, Ressources, Type, Workload, WorkloadDTO, WorkloadError,
};
use kudo::external_api::workload::service::WorkloadService;

fn workload(id: &str, namespace: &str) -> Workload {
    Workload {
        id: id.to_string(),
        name: format!("name-{}", id),
        workload_type: Type::Container,
        uri: "http://localhost".to_string(),
        environment: vec!["NGINX_PROXY=false".to_string()],
        resources: Ressources { cpu: 1, memory: 2, disk: 3 },
        ports: vec![Ports { source: 80, destination: 443 }],
        namespace: namespace.to_string(),
    }
}

fn dto(name: &str) -> WorkloadDTO {
    WorkloadDTO {
        name: name.to_string(),
        environment: vec!["NGINX_PROXY=false".to_string()],
        ports: vec![Ports { source: 80, destination: 443 }],
        uri: "http://localhost".to_string(),
    }
}

fn ids(ws: &[Workload]) -> Vec<String> {
    ws.iter().map(|w| w.id.clone()).collect()
}

fn is_uuid_v4(s: &str) -> bool {
    let chars: Vec<char> = s.chars().collect();
    chars.len() == 36
        && chars.iter().enumerate().all(|(i, c)| {
            if i == 8 || i == 13 || i == 18 || i == 23 {
                *c == '-'
            } else {
                c.is_ascii_digit() || ('a'..='f').contains(c)
            }
        })
        && chars[14] == '4'
        && "89ab".contains(chars[19])
}

#[test]
fn read_checks_namespace() {
    let service = WorkloadService::new();
    let found = service.get_workload(Some(workload("w1", "default")), &"default".to_string());
    assert_eq!(found.unwrap().id, "w1");
    let other = service.get_workload(Some(workload("w1", "default")), &"prod".to_string());
    assert!(matches!(other, Err(WorkloadError::WorkloadNotFound)));
    let missing = service.get_workload(None, &"default".to_string());
    assert!(matches!(missing, Err(WorkloadError::WorkloadNotFound)));
}

#[test]
fn create_builds_workload_with_fresh_uuid() {
    let service = WorkloadService::new();
    let created = service.create_workload(dto("postgres"), &"default".to_string());
    assert!(is_uuid_v4(&created.id));
    assert_eq!(created.name, "postgres");
    assert_eq!(created.namespace, "default");
    assert_eq!(created.uri, "http://localhost");
    assert_eq!(created.environment, vec!["NGINX_PROXY=false".to_string()]);
    assert_eq!(created.ports, vec![Ports { source: 80, destination: 443 }]);
    assert_eq!(created.resources, Ressources { cpu: 0, memory: 0, disk: 0 });
    let again = service.create_workload(dto("postgres"), &"default".to_string());
    assert_ne!(created.id, again.id);
    let id = created.id.clone();
    let read = service.get_workload(Some(created), &"default".to_string()).unwrap();
    assert_eq!(read.id, id);
}

#[test]
fn update_replaces_found_workload() {
    let service = WorkloadService::new();
    let updated = service
        .update_workload(Ok(workload("w1", "default")), dto("redis"), &"w1".to_string(), &"default".to_string())
        .unwrap();
    assert_eq!(updated.id, "w1");
    assert_eq!(updated.name, "redis");
    assert_eq!(updated.resources, Ressources { cpu: 0, memory: 0, disk: 0 });
    let missing = service.update_workload(
        Err(WorkloadError::WorkloadNotFound),
        dto("redis"),
        &"w1".to_string(),
        &"default".to_string(),
    );
    assert!(matches!(missing, Err(WorkloadError::WorkloadNotFound)));
}

#[test]
fn put_and_delete_outcomes() {
    let service = WorkloadService::new();
    assert!(service.after_put(Ok(()), workload("w", "default")).is_ok());
    match service.after_put(Err("connection refused".to_string()), workload("w", "default")) {
        Err(WorkloadError::Etcd(msg)) => assert_eq!(msg, "connection refused"),
        _ => panic!("expected an etcd error"),
    }
    assert!(service.delete_workload(&Ok(workload("w", "default"))));
    assert!(!service.delete_workload(&Err(WorkloadError::WorkloadNotFound)));
    assert!(service.after_delete(true).is_ok());
    assert!(matches!(service.after_delete(false), Err(WorkloadError::WorkloadNotFound)));
}

#[test]
fn listing_pages_then_filters_namespace() {
    let service = WorkloadService::new();
    let all = || {
        vec![
            workload("a", "default"),
            workload("b", "prod"),
            workload("c", "default"),
            workload("d", "default"),
        ]
    };
    let ns = "default".to_string();
    assert_eq!(ids(&service.get_all_workloads(Some(all()), 0, 0, &ns)), vec!["a", "c", "d"]);
    assert_eq!(ids(&service.get_all_workloads(Some(all()), 2, 0, &ns)), vec!["a"]);
    assert_eq!(ids(&service.get_all_workloads(Some(all()), 0, 1, &ns)), vec!["c", "d"]);
    assert_eq!(ids(&service.get_all_workloads(Some(all()), 1, 2, &ns)), vec!["c"]);
    assert!(service.get_all_workloads(Some(all()), 0, 5, &ns).is_empty());
    assert!(service.get_all_workloads(Some(all()), 0, 4, &ns).is_empty());
    assert!(service.get_all_workloads(None, 0, 0, &ns).is_empty());
}

#[test]
fn filter_service_cuts() {
    let filter = FilterService::new();
    let all = vec![workload("a", "x"), workload("b", "y"), workload("c", "x")];
    assert_eq!(ids(&filter.offset(&all, 1).unwrap()), vec!["b", "c"]);
    assert!(filter.offset(&all, 3).unwrap().is_empty());
    assert!(matches!(filter.offset(&all, 4), Err(WorkloadError::OutOfRange)));
    assert_eq!(ids(&filter.limit(&all, 2)), vec!["a", "b"]);
    assert_eq!(ids(&filter.limit(&all, 9)), vec!["a", "b", "c"]);
    assert_eq!(ids(&filter.filter_by_namespace(&all, &"x".to_string())), vec!["a", "c"]);
}

#[test]
fn workload_clone_is_equal() {
    let w = workload("a", "x");
    let c = w.clone();
    assert_eq!(c.id, w.id);
    assert_eq!(c.environment, w.environment);
    assert_eq!(c.ports, w.ports);
}

#[test]
fn get_workload_replies() {
    let ok = WorkloadController::get_workload(Ok("\"{}\"".to_string()));
    assert_eq!((ok.status, ok.body.as_str()), (200, "\"\\\"{}\\\"\""));
    let plain = WorkloadController::get_workload(Ok("{}".to_string()));
    assert_eq!((plain.status, plain.body.as_str()), (200, "\"{}\""));
    let nf = WorkloadController::get_workload(Err(WorkloadError::WorkloadNotFound));
    assert_eq!((nf.status, nf.body.as_str()), (404, "Workload not found"));
    let bad = WorkloadController::get_workload(Err(WorkloadError::JsonToWorkload("eof".to_string())));
    assert_eq!(
        (bad.status, bad.body.as_str()),
        (500, "Error while converting JSON string to workload : eof")
    );
    let other = WorkloadController::get_workload(Err(WorkloadError::OutOfRange));
    assert_eq!((other.status, other.body.as_str()), (500, "Internal Server Error"));
}

#[test]
fn put_workload_replies() {
    let ok = WorkloadController::put_workload(Ok("{}".to_string()));
    assert_eq!((ok.status, ok.body.as_str()), (201, "\"{}\""));
    let etcd = WorkloadController::put_workload(Err(WorkloadError::Etcd("down".to_string())));
    assert_eq!((etcd.status, etcd.body.as_str()), (500, "Etcd error: down "));
    let taken = WorkloadController::put_workload(Err(WorkloadError::NameAlreadyExists("pg".to_string())));
    assert_eq!((taken.status, taken.body.as_str()), (409, "Workload with name pg already exists"));
    let json = WorkloadController::put_workload(Err(WorkloadError::WorkloadToJson("x".to_string())));
    assert_eq!((json.status, json.body.as_str()), (500, "Error while converting the workload to json: x"));
    let other = WorkloadController::put_workload(Err(WorkloadError::WorkloadNotFound));
    assert_eq!((other.status, other.body.as_str()), (500, "Internal Server Error"));
}

#[test]
fn patch_delete_and_list_replies() {
    let ok = WorkloadController::patch_workload(Ok("{}".to_string()));
    assert_eq!((ok.status, ok.body.as_str()), (201, "\"{}\""));
    let nf = WorkloadController::patch_workload(Err(WorkloadError::WorkloadNotFound));
    assert_eq!((nf.status, nf.body.as_str()), (404, "Workload not found"));
    let bad = WorkloadController::patch_workload(Err(WorkloadError::JsonToWorkload("x".to_string())));
    assert_eq!((bad.status, bad.body.as_str()), (500, "Error while converting the workload to json: x"));
    let del = WorkloadController::delete_workload(Err(WorkloadError::WorkloadNotFound));
    assert_eq!((del.status, del.body.as_str()), (204, "Remove successfully"));
    assert_eq!(WorkloadController::get_all_workloads(None), (0, 0));
    assert_eq!(WorkloadController::get_all_workloads(Some(Pagination { limit: 3, offset: 2 })), (3, 2));
}

#[test]
fn reply_bodies_escape_the_service_text() {
    let text = "a\"b\\c\n\u{1}\t\u{1f}\u{e9}".to_string();
    let expected = "\"a\\\"b\\\\c\\n\\u0001\\t\\u001f\u{e9}\"";
    let get = WorkloadController::get_workload(Ok(text.clone()));
    assert_eq!((get.status, get.body.as_str()), (200, expected));
    let put = WorkloadController::put_workload(Ok(text.clone()));
    assert_eq!((put.status, put.body.as_str()), (201, expected));
    let patch = WorkloadController::patch_workload(Ok(text));
    assert_eq!((patch.status, patch.body.as_str()), (201, expected));
}
