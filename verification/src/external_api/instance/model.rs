//! The instance data model and its conversions.
use crate::external_api::workload::model::{copy_strings, texts, Ports, Workload};
use crate::net::{socket_addr_to_string, socket_text, Ipv4Addr, SocketAddrV4};
use crate::proto::controller::{state_number, type_number, InstanceState, Type};
use crate::proto::scheduler;
use vstd::prelude::*;

verus! {

/// The error of `serde_json`, carried through unchanged.
#[verifier::external_type_specification]
#[verifier::external_body]
pub struct ExSerdeJsonError(serde_json::Error);

/// Why an instance request failed.
#[derive(Debug)]
pub enum InstanceError {
    InstanceNotFound,
    Etcd(String),
    Grpc(String),
    SerdeError(serde_json::Error),
}

/// The address that instances get before one is allocated to them: `10.0.0.1`.
pub open spec fn default_ip() -> Ipv4Addr {
    Ipv4Addr { a: 10, b: 0, c: 0, d: 1 }
}

/// Builds `default_ip`.
pub fn default_ip_address() -> (r: Ipv4Addr)
    ensures
        r == default_ip(),
{
    Ipv4Addr::new(10, 0, 0, 1)
}

/// Builds the unspecified address `0.0.0.0`.
pub fn generate_ip() -> (r: Ipv4Addr)
    ensures
        r == (Ipv4Addr { a: 0, b: 0, c: 0, d: 0 }),
{
    Ipv4Addr::new(0, 0, 0, 0)
}

/// The resources of one kind of measure.
#[derive(Clone, Copy, Debug, PartialEq, Eq, Structural)]
pub struct ResourceSummary {
    pub cpu: i32,
    pub memory: i32,
    pub disk: i32,
}

/// The limit and the usage of an instance's resources.
#[derive(Clone, Copy, Debug, PartialEq, Eq, Structural)]
pub struct Resource {
    pub limit: Option<ResourceSummary>,
    pub usage: Option<ResourceSummary>,
}

/// Names an instance in a request.
#[derive(Debug)]
pub struct InstanceDTO {
    pub id: String,
}

/// A port mapping of an instance.
#[derive(Clone, Copy, Debug, PartialEq, Eq, Structural)]
pub struct Port {
    pub source: i32,
    pub dest: i32,
}

/// An instance as the controller stores it.
#[derive(Debug)]
pub struct Instance {
    pub id: String,
    pub name: String,
    pub instance_type: Type,
    pub state: InstanceState,
    pub status_description: String,
    pub num_restarts: i32,
    pub uri: String,
    pub environment: Vec<String>,
    pub resource: Option<Resource>,
    pub ports: Vec<Port>,
    pub ip: SocketAddrV4,
    pub namespace: String,
}

/// An instance as a mathematical value.
pub struct InstanceView {
    pub id: Seq<char>,
    pub name: Seq<char>,
    pub instance_type: Type,
    pub state: InstanceState,
    pub status_description: Seq<char>,
    pub num_restarts: i32,
    pub uri: Seq<char>,
    pub environment: Seq<Seq<char>>,
    pub resource: Option<Resource>,
    pub ports: Seq<Port>,
    pub ip: SocketAddrV4,
    pub namespace: Seq<char>,
}

impl View for Instance {
    type V = InstanceView;

    open spec fn view(&self) -> InstanceView {
        InstanceView {
            id: self.id@,
            name: self.name@,
            instance_type: self.instance_type,
            state: self.state,
            status_description: self.status_description@,
            num_restarts: self.num_restarts,
            uri: self.uri@,
            environment: texts(self.environment@),
            resource: self.resource,
            ports: self.ports@,
            ip: self.ip,
            namespace: self.namespace@,
        }
    }
}

/// A scheduler instance as a mathematical value.
pub struct SchedulerInstanceView {
    pub id: Seq<char>,
    pub name: Seq<char>,
    pub instance_type: i32,
    pub status: i32,
    pub environnement: Seq<Seq<char>>,
    pub ip: Seq<char>,
    pub ports: Seq<scheduler::Port>,
    pub resource: Option<scheduler::Resource>,
    pub uri: Seq<char>,
}

/// The view of a scheduler instance.
pub open spec fn scheduler_view(i: scheduler::Instance) -> SchedulerInstanceView {
    SchedulerInstanceView {
        id: i.id@,
        name: i.name@,
        instance_type: i.instance_type,
        status: i.status,
        environnement: texts(i.environnement@),
        ip: i.ip@,
        ports: i.ports@,
        resource: i.resource,
        uri: i.uri@,
    }
}

/// A workload port mapping as an instance port mapping.
pub open spec fn port_of_workload(p: Ports) -> Port {
    Port { source: p.source, dest: p.destination }
}

/// An instance port mapping as a scheduler port mapping.
pub open spec fn port_to_scheduler(p: Port) -> scheduler::Port {
    scheduler::Port { source: p.source, destination: p.dest }
}

/// A resource summary as the scheduler's.
pub open spec fn summary_to_scheduler(s: Option<ResourceSummary>) -> Option<
    scheduler::ResourceSummary,
> {
    match s {
        Some(s) => Some(scheduler::ResourceSummary { cpu: s.cpu, memory: s.memory, disk: s.disk }),
        None => None,
    }
}

/// Resources as the scheduler's.
pub open spec fn resource_to_scheduler(r: Option<Resource>) -> Option<scheduler::Resource> {
    match r {
        Some(r) => Some(
            scheduler::Resource {
                limit: summary_to_scheduler(r.limit),
                usage: summary_to_scheduler(r.usage),
            },
        ),
        None => None,
    }
}

/// The instance that starts a workload: state `Scheduling`, no restarts, an
/// empty status description, namespace `default`, the workload's resources as
/// the limit, no usage, and the default address with port 0.
pub open spec fn instance_of_workload(w: crate::external_api::workload::model::WorkloadView) -> InstanceView {
    InstanceView {
        id: w.id,
        name: w.name,
        instance_type: Type::Container,
        state: InstanceState::Scheduling,
        status_description: Seq::empty(),
        num_restarts: 0,
        uri: w.uri,
        environment: w.environment,
        resource: Some(
            Resource {
                limit: Some(
                    ResourceSummary {
                        cpu: w.resources.cpu,
                        memory: w.resources.memory,
                        disk: w.resources.disk,
                    },
                ),
                usage: None,
            },
        ),
        ports: w.ports.map_values(|p: Ports| port_of_workload(p)),
        ip: SocketAddrV4 { ip: default_ip(), port: 0 },
        namespace: seq!['d', 'e', 'f', 'a', 'u', 'l', 't'],
    }
}

/// The message that asks the scheduler to run instance `i`.
pub open spec fn scheduler_request(i: InstanceView) -> SchedulerInstanceView {
    SchedulerInstanceView {
        id: i.id,
        name: i.name,
        instance_type: type_number(i.instance_type),
        status: state_number(i.state),
        environnement: i.environment,
        ip: socket_text(i.ip),
        ports: i.ports.map_values(|p: Port| port_to_scheduler(p)),
        resource: resource_to_scheduler(i.resource),
        uri: i.uri,
    }
}

fn summary_into(s: Option<ResourceSummary>) -> (r: Option<scheduler::ResourceSummary>)
    ensures
        r == summary_to_scheduler(s),
{
    match s {
        Some(s) => Some(scheduler::ResourceSummary { cpu: s.cpu, memory: s.memory, disk: s.disk }),
        None => None,
    }
}

impl Instance {
    /// The instance that starts `workload`, as `instance_of_workload` says.
    pub fn from(workload: Workload) -> (r: Instance)
        ensures
            r@ == instance_of_workload(workload@),
    {
        let mut ports: Vec<Port> = Vec::new();
        let mut i: usize = 0;
        while i < workload.ports.len()
            invariant
                i <= workload.ports.len(),
                ports@ == workload.ports@.take(i as int).map_values(
                    |p: Ports| port_of_workload(p),
                ),
            decreases workload.ports.len() - i,
        {
            let p = workload.ports[i];
            ports.push(Port { source: p.source, dest: p.destination });
            i = i + 1;
            assert(ports@ =~= workload.ports@.take(i as int).map_values(
                |p: Ports| port_of_workload(p),
            ));
        }
        assert(workload.ports@.take(workload.ports.len() as int) =~= workload.ports@);
        proof { reveal_strlit("default"); }
        let namespace = String::from_str("default");
        assert(namespace@ =~= seq!['d', 'e', 'f', 'a', 'u', 'l', 't']);
        let r = Instance {
            id: workload.id,
            name: workload.name,
            instance_type: Type::Container,
            state: InstanceState::Scheduling,
            status_description: String::new(),
            num_restarts: 0,
            uri: workload.uri,
            environment: workload.environment,
            namespace,
            resource: Some(
                Resource {
                    limit: Some(
                        ResourceSummary {
                            cpu: workload.resources.cpu,
                            memory: workload.resources.memory,
                            disk: workload.resources.disk,
                        },
                    ),
                    usage: None,
                },
            ),
            ports,
            ip: SocketAddrV4::new(default_ip_address(), 0),
        };
        r
    }

    /// The message that asks the scheduler to run this instance, as
    /// `scheduler_request` says; the address is written as `a.b.c.d:port`.
    pub fn into(self) -> (r: scheduler::Instance)
        ensures
            scheduler_view(r) == scheduler_request(self@),
    {
        let mut ports: Vec<scheduler::Port> = Vec::new();
        let mut i: usize = 0;
        while i < self.ports.len()
            invariant
                i <= self.ports.len(),
                ports@ == self.ports@.take(i as int).map_values(|p: Port| port_to_scheduler(p)),
            decreases self.ports.len() - i,
        {
            let p = self.ports[i];
            ports.push(scheduler::Port { source: p.source, destination: p.dest });
            i = i + 1;
            assert(ports@ =~= self.ports@.take(i as int).map_values(
                |p: Port| port_to_scheduler(p),
            ));
        }
        assert(self.ports@.take(self.ports.len() as int) =~= self.ports@);
        let resource = match self.resource {
            Some(resource) => Some(
                scheduler::Resource {
                    limit: summary_into(resource.limit),
                    usage: summary_into(resource.usage),
                },
            ),
            None => None,
        };
        let instance_type: i32 = self.instance_type.number();
        let status: i32 = self.state.number();
        let ip = socket_addr_to_string(&self.ip);
        scheduler::Instance {
            id: self.id,
            name: self.name,
            instance_type,
            status,
            environnement: self.environment,
            ip,
            ports,
            resource,
            uri: self.uri,
        }
    }

    /// A copy of the instance.
    pub fn duplicate(&self) -> (r: Instance)
        ensures
            r@ == self@,
    {
        Instance {
            id: self.id.clone(),
            name: self.name.clone(),
            instance_type: self.instance_type,
            state: self.state,
            status_description: self.status_description.clone(),
            num_restarts: self.num_restarts,
            uri: self.uri.clone(),
            environment: copy_strings(&self.environment),
            resource: self.resource,
            ports: copy_port_list(&self.ports),
            ip: self.ip,
            namespace: self.namespace.clone(),
        }
    }
}

fn copy_port_list(v: &Vec<Port>) -> (r: Vec<Port>)
    ensures
        r@ == v@,
{
    let mut r: Vec<Port> = Vec::new();
    let mut i: usize = 0;
    while i < v.len()
        invariant
            i <= v.len(),
            r@ == v@.take(i as int),
        decreases v.len() - i,
    {
        let p = v[i];
        r.push(p);
        i = i + 1;
        assert(r@ =~= v@.take(i as int));
    }
    assert(v@.take(v.len() as int) =~= v@);
    r
}

/// A workload reaches the scheduler intact: the request that starts an
/// instance of it carries its identifier, name, image, environment, port
/// mappings and resources as the limit, in state `Scheduling` (8) with type
/// `Container` (0), at `10.0.0.1:0` until an address is allocated.
pub proof fn lemma_workload_reaches_scheduler(w: crate::external_api::workload::model::WorkloadView)
    ensures
        ({
            let r = scheduler_request(instance_of_workload(w));
            &&& r.id == w.id
            &&& r.name == w.name
            &&& r.uri == w.uri
            &&& r.environnement == w.environment
            &&& r.status == 8
            &&& r.instance_type == 0
            &&& r.ip == socket_text(SocketAddrV4 { ip: default_ip(), port: 0 })
            &&& r.ports == w.ports.map_values(
                |p: Ports| scheduler::Port { source: p.source, destination: p.destination },
            )
            &&& r.resource == Some(
                scheduler::Resource {
                    limit: Some(
                        scheduler::ResourceSummary {
                            cpu: w.resources.cpu,
                            memory: w.resources.memory,
                            disk: w.resources.disk,
                        },
                    ),
                    usage: None,
                },
            )
        }),
{
    let r = scheduler_request(instance_of_workload(w));
    assert(r.ports =~= w.ports.map_values(
        |p: Ports| scheduler::Port { source: p.source, destination: p.destination },
    ));
}

} // verus!
