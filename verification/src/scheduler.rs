//! The scheduler's bookkeeping: the instances it was asked to run, and how
//! the events from the controller change them.
use crate::proto::scheduler::{Instance, InstanceAction};
use vstd::prelude::*;

verus! {

/// Whether `k` is the first position in `s` of an instance with identifier `id`.
pub open spec fn first_with_id(s: Seq<Instance>, id: Seq<char>, k: int) -> bool {
    &&& 0 <= k < s.len()
    &&& s[k].id@ == id
    &&& forall|j: int| 0 <= j < k ==> s[j].id@ != id
}

/// Whether some instance in `s` has identifier `id`.
pub open spec fn has_id(s: Seq<Instance>, id: Seq<char>) -> bool {
    exists|k: int| 0 <= k < s.len() && s[k].id@ == id
}

/// The wire number of the state that an update request puts an instance in: `Stopping`.
pub const UPDATED_STATUS: i32 = 3;

/// The instances known to the scheduler, in the order they arrived.
pub struct Storage {
    instances: Vec<Instance>,
}

impl Storage {
    /// The stored instances.
    pub closed spec fn spec_instances(&self) -> Seq<Instance> {
        self.instances@
    }

    pub fn new() -> (r: Storage)
        ensures
            r.spec_instances().len() == 0,
    {
        Storage { instances: Vec::new() }
    }

    /// Appends `instance`.
    pub fn add_instance(&mut self, instance: Instance)
        ensures
            final(self).spec_instances() == old(self).spec_instances().push(instance),
    {
        self.instances.push(instance);
    }

    /// The position of the first instance with identifier `id`, if any.
    fn position(&self, id: &String) -> (r: Option<usize>)
        ensures
            r is None ==> !has_id(self.spec_instances(), id@),
            r is Some ==> first_with_id(self.spec_instances(), id@, r->0 as int),
    {
        let mut k: usize = 0;
        while k < self.instances.len()
            invariant
                k <= self.instances.len(),
                forall|j: int| 0 <= j < k ==> self.instances@[j].id@ != id@,
            decreases self.instances.len() - k,
        {
            if self.instances[k].id == *id {
                return Some(k);
            }
            k = k + 1;
        }
        None
    }

    /// Sets the status of the first instance with identifier `id` to `status`;
    /// there must be one.
    pub fn update_instance(&mut self, id: &String, status: i32)
        requires
            has_id(old(self).spec_instances(), id@),
        ensures
            final(self).spec_instances().len() == old(self).spec_instances().len(),
            exists|k: int|
                first_with_id(old(self).spec_instances(), id@, k) && {
                    let o = old(self).spec_instances()[k];
                    let n = final(self).spec_instances()[k];
                    &&& n.status == status
                    &&& n.id == o.id
                    &&& n.name == o.name
                    &&& n.instance_type == o.instance_type
                    &&& n.environnement@ == o.environnement@
                    &&& n.ip == o.ip
                    &&& n.ports@ == o.ports@
                    &&& n.resource == o.resource
                    &&& n.uri == o.uri
                    &&& forall|j: int|
                        0 <= j < old(self).spec_instances().len() && j != k
                            ==> final(self).spec_instances()[j] == old(self).spec_instances()[j]
                },
    {
        let k: usize = self.position(id).unwrap();
        let mut updated = self.instances[k].duplicate();
        updated.status = status;
        self.instances.set(k, updated);
    }

    /// The first instance with identifier `id`, if any.
    pub fn get_instance(&self, id: &String) -> (r: Option<&Instance>)
        ensures
            r is None ==> !has_id(self.spec_instances(), id@),
            r is Some ==> exists|k: int|
                first_with_id(self.spec_instances(), id@, k) && *r->0
                    == self.spec_instances()[k],
    {
        match self.position(id) {
            Some(k) => Some(&self.instances[k]),
            None => None,
        }
    }

    /// All stored instances.
    pub fn get_instances(&self) -> (r: &Vec<Instance>)
        ensures
            r@ == self.spec_instances(),
    {
        &self.instances
    }
}

/// What the controller asks of the scheduler.
#[derive(Debug)]
pub enum Event {
    /// Run a new instance.
    InstanceCreate(Instance),
    /// Act on a running instance.
    InstanceUpdate(InstanceAction),
}

/// Applies the controller's events to the storage.
pub struct Manager {
    storage: Storage,
}

impl Manager {
    pub closed spec fn spec_storage(&self) -> Storage {
        self.storage
    }

    pub fn new() -> (r: Manager)
        ensures
            r.spec_storage().spec_instances().len() == 0,
    {
        Manager { storage: Storage::new() }
    }

    /// Whether `event` can be applied: an update must name a stored instance.
    pub open spec fn applicable(&self, event: Event) -> bool {
        event matches Event::InstanceUpdate(action) ==> has_id(
            self.spec_storage().spec_instances(),
            action.id@,
        )
    }

    /// Whether `after` is `before` with the first instance with identifier
    /// `id` put in the `Stopping` state, its other fields and all other
    /// instances unchanged.
    pub open spec fn updated(before: Seq<Instance>, after: Seq<Instance>, id: Seq<char>) -> bool {
        &&& after.len() == before.len()
        &&& exists|k: int|
            first_with_id(before, id, k) && {
                let o = before[k];
                let n = after[k];
                &&& n.status == UPDATED_STATUS
                &&& n.id == o.id
                &&& n.name == o.name
                &&& n.instance_type == o.instance_type
                &&& n.environnement@ == o.environnement@
                &&& n.ip == o.ip
                &&& n.ports@ == o.ports@
                &&& n.resource == o.resource
                &&& n.uri == o.uri
                &&& forall|j: int| 0 <= j < before.len() && j != k ==> after[j] == before[j]
            }
    }

    /// Applies one event: a creation stores the instance, an update puts the
    /// first instance with that identifier in the `Stopping` state.
    pub fn handle_event(&mut self, event: Event)
        requires
            old(self).applicable(event),
        ensures
            event matches Event::InstanceCreate(instance) ==> final(self).spec_storage().spec_instances()
                == old(self).spec_storage().spec_instances().push(instance),
            event matches Event::InstanceUpdate(action) ==> Self::updated(
                old(self).spec_storage().spec_instances(),
                final(self).spec_storage().spec_instances(),
                action.id@,
            ),
    {
        match event {
            Event::InstanceCreate(instance) => {
                self.storage.add_instance(instance);
            },
            Event::InstanceUpdate(action) => {
                self.storage.update_instance(&action.id, UPDATED_STATUS);
            },
        }
    }

    /// The storage, to be read.
    pub fn storage(&self) -> (r: &Storage)
        ensures
            *r == self.spec_storage(),
    {
        &self.storage
    }
}

/// An instance added under a new identifier is the one found under it.
pub proof fn lemma_added_instance_found(stored: Seq<Instance>, instance: Instance)
    requires
        !has_id(stored, instance.id@),
    ensures
        first_with_id(stored.push(instance), instance.id@, stored.len() as int),
        has_id(stored.push(instance), instance.id@),
{
    assert(stored.push(instance)[stored.len() as int] == instance);
}

/// Adding an instance does not change which instance is found under an
/// identifier that was already stored.
pub proof fn lemma_add_keeps_first(stored: Seq<Instance>, instance: Instance, id: Seq<char>, k: int)
    requires
        first_with_id(stored, id, k),
    ensures
        first_with_id(stored.push(instance), id, k),
{
}

} // verus!
