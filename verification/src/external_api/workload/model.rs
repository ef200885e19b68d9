//! The workload data model.
use vstd::prelude::*;

verus! {

/// Why a workload request failed.
#[derive(Debug)]
pub enum WorkloadError {
    WorkloadNotFound,
    Etcd(String),
    NameAlreadyExists(String),
    OutOfRange,
    JsonToWorkload(String),
    WorkloadToJson(String),
}

/// Which page of workloads a listing asks for.
#[derive(Clone, Copy, Debug, PartialEq, Eq, Structural)]
pub struct Pagination {
    pub limit: u32,
    pub offset: u32,
}

/// The kind of a workload.
#[derive(Clone, Copy, Debug, PartialEq, Eq, Structural)]
pub enum Type {
    Container,
}

/// The resources that a workload asks for.
#[derive(Clone, Copy, Debug, PartialEq, Eq, Structural)]
pub struct Ressources {
    pub cpu: i32,
    pub memory: i32,
    pub disk: i32,
}

/// A port mapping of a workload.
#[derive(Clone, Copy, Debug, PartialEq, Eq, Structural)]
pub struct Ports {
    pub source: i32,
    pub destination: i32,
}

/// A workload as it is stored.
#[derive(Debug)]
pub struct Workload {
    pub id: String,
    pub name: String,
    pub workload_type: Type,
    pub uri: String,
    pub environment: Vec<String>,
    pub resources: Ressources,
    pub ports: Vec<Ports>,
    pub namespace: String,
}

/// The texts of a list of strings.
pub open spec fn texts(v: Seq<String>) -> Seq<Seq<char>> {
    v.map_values(|s: String| s@)
}

/// A workload as a mathematical value.
pub struct WorkloadView {
    pub id: Seq<char>,
    pub name: Seq<char>,
    pub workload_type: Type,
    pub uri: Seq<char>,
    pub environment: Seq<Seq<char>>,
    pub resources: Ressources,
    pub ports: Seq<Ports>,
    pub namespace: Seq<char>,
}

impl View for Workload {
    type V = WorkloadView;

    open spec fn view(&self) -> WorkloadView {
        WorkloadView {
            id: self.id@,
            name: self.name@,
            workload_type: self.workload_type,
            uri: self.uri@,
            environment: texts(self.environment@),
            resources: self.resources,
            ports: self.ports@,
            namespace: self.namespace@,
        }
    }
}

/// What a user sends to create or update a workload.
#[derive(Debug)]
pub struct WorkloadDTO {
    pub name: String,
    pub environment: Vec<String>,
    pub ports: Vec<Ports>,
    pub uri: String,
}

/// A workload request as a mathematical value.
pub struct WorkloadDTOView {
    pub name: Seq<char>,
    pub environment: Seq<Seq<char>>,
    pub ports: Seq<Ports>,
    pub uri: Seq<char>,
}

impl View for WorkloadDTO {
    type V = WorkloadDTOView;

    open spec fn view(&self) -> WorkloadDTOView {
        WorkloadDTOView {
            name: self.name@,
            environment: texts(self.environment@),
            ports: self.ports@,
            uri: self.uri@,
        }
    }
}

/// Copies a list of strings.
pub fn copy_strings(v: &Vec<String>) -> (r: Vec<String>)
    ensures
        r@ == v@,
{
    let mut r: Vec<String> = Vec::new();
    let mut i: usize = 0;
    while i < v.len()
        invariant
            i <= v.len(),
            r@ == v@.take(i as int),
        decreases v.len() - i,
    {
        r.push(v[i].clone());
        i = i + 1;
        assert(r@ =~= v@.take(i as int));
    }
    assert(v@.take(v.len() as int) =~= v@);
    r
}

/// Copies a list of port mappings.
pub fn copy_ports(v: &Vec<Ports>) -> (r: Vec<Ports>)
    ensures
        r@ == v@,
{
    let mut r: Vec<Ports> = Vec::new();
    let mut i: usize = 0;
    while i < v.len()
        invariant
            i <= v.len(),
            r@ == v@.take(i as int),
        decreases v.len() - i,
    {
        let p = v[i];
        r.push(p);
        i = i + 1;
        assert(r@ =~= v@.take(i as int));
    }
    assert(v@.take(v.len() as int) =~= v@);
    r
}

impl Clone for Workload {
    fn clone(&self) -> (r: Self)
        ensures
            r@ == self@,
    {
        Workload {
            id: self.id.clone(),
            name: self.name.clone(),
            workload_type: self.workload_type,
            uri: self.uri.clone(),
            environment: copy_strings(&self.environment),
            resources: self.resources,
            ports: copy_ports(&self.ports),
            namespace: self.namespace.clone(),
        }
    }
}

} // verus!
