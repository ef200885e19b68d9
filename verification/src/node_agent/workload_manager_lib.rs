//! The workload manager of the agent's workload library: workloads are
//! recorded under fresh UUIDs and signals are delivered without status reports.
use super::error::WorkloadError;
use super::workload::is_mock_id;
use super::workload_lib::Workload;
use super::workload_manager::SignalAction;
use crate::ids::{is_uuid_v4_text, new_uuid_v4_string};
use crate::proto::agent::{Instance, Signal};
use vstd::hash_map::StringHashMap;
use vstd::prelude::*;

verus! {

/// A signal for the workload recorded under the instance's identifier.
#[derive(Debug)]
pub struct Instruction {
    pub instance: Instance,
    pub signal: Signal,
}

/// The workloads of a node, by a key of their own.
pub struct WorkloadManager {
    workloads: StringHashMap<Workload>,
    listeners: StringHashMap<String>,
}

impl WorkloadManager {
    /// The workloads, by key.
    pub closed spec fn spec_workloads(&self) -> Map<Seq<char>, Workload> {
        self.workloads@
    }

    /// The status listeners, by key.
    pub closed spec fn spec_listeners(&self) -> Map<Seq<char>, String> {
        self.listeners@
    }

    pub fn new() -> (r: WorkloadManager)
        ensures
            r.spec_workloads() == Map::<Seq<char>, Workload>::empty(),
            r.spec_listeners() == Map::<Seq<char>, String>::empty(),
    {
        WorkloadManager { workloads: StringHashMap::new(), listeners: StringHashMap::new() }
    }

    /// Creates a workload and records it under a fresh random UUID, which is returned.
    pub fn create(&mut self, instance: Instance) -> (key: String)
        ensures
            is_uuid_v4_text(key@),
            final(self).spec_workloads().dom() == old(self).spec_workloads().dom().insert(key@),
            is_mock_id(final(self).spec_workloads()[key@].spec_id()),
            forall|k: Seq<char>|
                k != key@ && old(self).spec_workloads().contains_key(k) ==> final(
                    self).spec_workloads()[k] == old(self).spec_workloads()[k],
            final(self).spec_listeners() == old(self).spec_listeners(),
    {
        let key = new_uuid_v4_string();
        let workload = Workload::create();
        self.workloads.insert(key.clone(), workload);
        key
    }

    /// Delivers a signal to the workload recorded under the instruction's
    /// instance identifier: it is forgotten and returned with what to do with
    /// it; a key without a workload is refused and changes nothing.
    pub fn signal(&mut self, signal_instruction: Instruction) -> (r: Result<
        SignalAction,
        WorkloadError,
    >)
        ensures
            !old(self).spec_workloads().contains_key(signal_instruction.instance.id@) ==> (r matches Err(e)
                && e.spec_details() == "This workload does not exist"@) && *final(self) == *old(self),
            old(self).spec_workloads().contains_key(signal_instruction.instance.id@) ==> {
                let w = old(self).spec_workloads()[signal_instruction.instance.id@].spec_id();
                &&& signal_instruction.signal == Signal::Stop ==> (r matches Ok(
                    SignalAction::Stop(Some(s)),
                ) && s@ == w)
                &&& signal_instruction.signal == Signal::Kill ==> (r matches Ok(
                    SignalAction::Kill(Some(s)),
                ) && s@ == w)
                &&& final(self).spec_workloads() == old(self).spec_workloads().remove(
                    signal_instruction.instance.id@,
                )
                &&& final(self).spec_listeners() == old(self).spec_listeners()
            },
    {
        let workload_id = signal_instruction.instance.id;
        let workload = match self.workloads.get(workload_id.as_str()) {
            None => return Err(WorkloadError::new("This workload does not exist")),
            Some(workload) => workload.getId(),
        };
        let action = match signal_instruction.signal {
            Signal::Stop => SignalAction::Stop(Some(workload)),
            Signal::Kill => SignalAction::Kill(Some(workload)),
        };
        self.workloads.remove(workload_id.as_str());
        Ok(action)
    }
}

} // verus!
