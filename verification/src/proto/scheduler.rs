//! Messages of the scheduler protocol.
use vstd::prelude::*;

verus! {

/// The resources of one kind of measure.
#[derive(Clone, Copy, Debug, PartialEq, Eq, Structural)]
pub struct ResourceSummary {
    pub cpu: i32,
    pub memory: i32,
    pub disk: i32,
}

/// The limit and the usage of an instance's resources.
#[derive(Clone, Copy, Debug, PartialEq, Eq, Structural)]
pub struct Resource {
    pub limit: Option<ResourceSummary>,
    pub usage: Option<ResourceSummary>,
}

/// A port mapping.
#[derive(Clone, Copy, Debug, PartialEq, Eq, Structural)]
pub struct Port {
    pub source: i32,
    pub destination: i32,
}

/// An instance as the scheduler receives it.
#[derive(Debug)]
pub struct Instance {
    pub id: String,
    pub name: String,
    /// The wire number of the instance's type.
    pub instance_type: i32,
    /// The wire number of the instance's state.
    pub status: i32,
    pub environnement: Vec<String>,
    pub ip: String,
    pub ports: Vec<Port>,
    pub resource: Option<Resource>,
    pub uri: String,
}

impl Instance {
    /// A copy of the message.
    pub fn duplicate(&self) -> (r: Instance)
        ensures
            r.id == self.id,
            r.name == self.name,
            r.instance_type == self.instance_type,
            r.status == self.status,
            r.environnement@ == self.environnement@,
            r.ip == self.ip,
            r.ports@ == self.ports@,
            r.resource == self.resource,
            r.uri == self.uri,
    {
        let mut environnement: Vec<String> = Vec::new();
        let mut i: usize = 0;
        while i < self.environnement.len()
            invariant
                i <= self.environnement.len(),
                environnement@ == self.environnement@.take(i as int),
            decreases self.environnement.len() - i,
        {
            environnement.push(self.environnement[i].clone());
            i = i + 1;
            assert(environnement@ =~= self.environnement@.take(i as int));
        }
        assert(self.environnement@.take(i as int) =~= self.environnement@);
        let mut ports: Vec<Port> = Vec::new();
        let mut j: usize = 0;
        while j < self.ports.len()
            invariant
                j <= self.ports.len(),
                ports@ == self.ports@.take(j as int),
            decreases self.ports.len() - j,
        {
            let p = self.ports[j];
            ports.push(p);
            j = j + 1;
            assert(ports@ =~= self.ports@.take(j as int));
        }
        assert(self.ports@.take(j as int) =~= self.ports@);
        Instance {
            id: self.id.clone(),
            name: self.name.clone(),
            instance_type: self.instance_type,
            status: self.status,
            environnement,
            ip: self.ip.clone(),
            ports,
            resource: self.resource,
            uri: self.uri.clone(),
        }
    }
}

/// A status report about an instance.
#[derive(Debug)]
pub struct InstanceStatus {
    pub id: String,
    /// The wire number of the reported state.
    pub status: i32,
    pub description: String,
}

/// Names an instance.
#[derive(Debug)]
pub struct InstanceIdentifier {
    pub id: String,
}

/// An action requested on an instance.
#[derive(Debug)]
pub struct InstanceAction {
    pub id: String,
    pub action: i32,
}

} // verus!
