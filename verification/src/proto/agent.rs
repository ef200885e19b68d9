//! Messages of the node agent protocol.
use vstd::prelude::*;

verus! {

/// The resources of one kind of measure.
#[derive(Clone, Copy, Debug, PartialEq, Eq, Structural)]
pub struct ResourceSummary {
    pub cpu: i32,
    pub memory: i32,
    pub disk: i32,
}

/// The limit and the usage of an instance's resources.
#[derive(Clone, Copy, Debug, PartialEq, Eq, Structural)]
pub struct Resource {
    pub limit: Option<ResourceSummary>,
    pub usage: Option<ResourceSummary>,
}

/// A port mapping.
#[derive(Clone, Copy, Debug, PartialEq, Eq, Structural)]
pub struct Port {
    pub source: i32,
    pub destination: i32,
}

/// An instance as the node agent receives it.
#[derive(Debug)]
pub struct Instance {
    pub id: String,
    pub name: String,
    /// The wire number of the instance's type.
    pub instance_type: i32,
    /// The wire number of the instance's state.
    pub status: i32,
    pub uri: String,
    pub environment: Vec<String>,
    pub resource: Option<Resource>,
    pub ports: Vec<Port>,
    pub ip: String,
}

/// A status report about an instance.
#[derive(Debug)]
pub struct InstanceStatus {
    pub id: String,
    /// The wire number of the reported state.
    pub status: i32,
    pub description: String,
}

/// A signal to deliver to the workload of an instance.
#[derive(Debug)]
pub struct SignalInstruction {
    pub instance: Option<Instance>,
    /// The wire number of the signal.
    pub signal: i32,
}

/// A signal to a workload.
#[derive(Clone, Copy, Debug, PartialEq, Eq, Structural)]
pub enum Signal {
    Stop,
    Kill,
}

/// The wire number of the signal that stops a workload.
pub const SIGNAL_STOP: i32 = 0;

/// The wire number of the signal that kills a workload.
pub const SIGNAL_KILL: i32 = 1;

/// The wire number of the `Stopping` status.
pub const STATUS_STOPPING: i32 = 3;

/// The wire number of the `Destroying` status.
pub const STATUS_DESTROYING: i32 = 4;

} // verus!
