//! The node agent's workload manager: it creates a workload per instance,
//! delivers stop and kill signals, and reports status changes in a queue that
//! is read in the order the statuses were sent.
use super::workload::{is_mock_id, Workload};
use crate::net::decimal_string;
use crate::proto::agent::{
    Instance, InstanceStatus, SignalInstruction, SIGNAL_KILL, SIGNAL_STOP, STATUS_DESTROYING,
    STATUS_STOPPING,
};
use vstd::hash_map::StringHashMap;
use vstd::prelude::*;

verus! {

/// Why a signal was not delivered.
#[derive(Debug, PartialEq, Eq, Structural)]
pub enum SignalError {
    /// The instruction names no instance (an invalid argument).
    MissingInstance,
    /// The signal number names no signal (not found).
    UnknownSignal,
}

impl SignalError {
    /// Whether the error is about a malformed request rather than a missing thing.
    pub fn is_invalid_argument(&self) -> (r: bool)
        ensures
            r == (*self is MissingInstance),
    {
        match self {
            SignalError::MissingInstance => true,
            _ => false,
        }
    }

    /// The message that explains the error.
    pub fn message(&self) -> (r: String)
        ensures
            *self is MissingInstance ==> r@ == "Please provide an 'Instance'"@,
            *self is UnknownSignal ==> r@ == "This signal does not exist"@,
    {
        match self {
            SignalError::MissingInstance => String::from_str("Please provide an 'Instance'"),
            SignalError::UnknownSignal => String::from_str("This signal does not exist"),
        }
    }
}

/// What to do once a signal is accepted: stop or kill the workload with this
/// identifier, or nothing when no workload is recorded for the instance.
#[derive(Debug, PartialEq, Eq)]
pub enum SignalAction {
    Stop(Option<String>),
    Kill(Option<String>),
}

/// Whether `s` reports state number `status` for instance `id`, with no description.
pub open spec fn reports(s: InstanceStatus, id: Seq<char>, status: i32) -> bool {
    s.id@ == id && s.status == status && s.description@ == Seq::<char>::empty()
}

/// The identifier of the workload recorded under `id` in `workloads`, if any.
pub open spec fn recorded_id(workloads: Map<Seq<char>, Workload>, id: Seq<char>) -> Option<Seq<char>> {
    if workloads.contains_key(id) {
        Some(workloads[id].spec_id())
    } else {
        None
    }
}

/// Whether an action's workload identifier is `expected`.
pub open spec fn acts_on(w: Option<String>, expected: Option<Seq<char>>) -> bool {
    match w {
        Some(s) => expected == Some(s@),
        None => expected is None,
    }
}

/// The workloads of a node, by instance identifier, and the queue of status
/// reports. Besides the pending reports, it keeps as ghost state every report
/// sent and every report received, to state that they come out in order.
pub struct WorkloadManager {
    workloads: StringHashMap<Workload>,
    listeners: StringHashMap<String>,
    statuses: Vec<InstanceStatus>,
    sent: Ghost<Seq<InstanceStatus>>,
    received: Ghost<Seq<InstanceStatus>>,
}

fn status_report(id: &String, status: i32) -> (r: InstanceStatus)
    ensures
        reports(r, id@, status),
{
    InstanceStatus { id: id.clone(), status, description: String::new() }
}

impl WorkloadManager {
    /// The workloads, by the identifier of their instance.
    pub closed spec fn spec_workloads(&self) -> Map<Seq<char>, Workload> {
        self.workloads@
    }

    /// The status listeners, by the identifier of the workload's instance.
    pub closed spec fn spec_listeners(&self) -> Map<Seq<char>, String> {
        self.listeners@
    }

    /// The statuses sent and not yet received, oldest first.
    pub closed spec fn spec_statuses(&self) -> Seq<InstanceStatus> {
        self.statuses@
    }

    /// Every status sent since the manager was made, oldest first.
    pub closed spec fn spec_sent(&self) -> Seq<InstanceStatus> {
        self.sent@
    }

    /// Every status received since the manager was made, oldest first.
    pub closed spec fn spec_received(&self) -> Seq<InstanceStatus> {
        self.received@
    }

    /// The queue is consistent: what was received, followed by what is
    /// pending, is what was sent.
    pub open spec fn wf(&self) -> bool {
        self.spec_received() + self.spec_statuses() == self.spec_sent()
    }

    /// A manager with no workload, no listener and no status sent.
    pub fn new() -> (r: WorkloadManager)
        ensures
            r.wf(),
            r.spec_workloads() == Map::<Seq<char>, Workload>::empty(),
            r.spec_listeners() == Map::<Seq<char>, String>::empty(),
            r.spec_statuses().len() == 0,
            r.spec_sent().len() == 0,
            r.spec_received().len() == 0,
    {
        let r = WorkloadManager {
            workloads: StringHashMap::new(),
            listeners: StringHashMap::new(),
            statuses: Vec::new(),
            sent: Ghost(Seq::empty()),
            received: Ghost(Seq::empty()),
        };
        assert(r.spec_received() + r.spec_statuses() =~= r.spec_sent());
        r
    }

    /// Creates and runs the workload of `instance` and returns it; the
    /// manager records neither the workload nor a listener for it. The
    /// statuses of every workload go to the manager's one queue, which
    /// `receive` reads in the order they were sent.
    pub fn create(&mut self, instance: Instance) -> (r: Workload)
        ensures
            is_mock_id(r.spec_id()),
            *final(self) == *old(self),
    {
        Workload::create(&instance)
    }

    /// Delivers a signal: an instruction without an instance is refused and
    /// changes nothing. Otherwise `Stopping` is reported; a stop or kill
    /// signal then reports `Destroying`, forgets the instance's workload (if
    /// one is recorded) and its listener, and returns what to do with the
    /// workload; any other signal is refused after the `Stopping` report.
    pub fn signal(&mut self, signal_instruction: SignalInstruction) -> (r: Result<
        SignalAction,
        SignalError,
    >)
        requires
            old(self).wf(),
        ensures
            final(self).wf(),
            final(self).spec_received() == old(self).spec_received(),
            signal_instruction.instance is None ==> r == Err::<SignalAction, SignalError>(
                SignalError::MissingInstance,
            ) && *final(self) == *old(self),
            signal_instruction.instance matches Some(inst) ==> {
                let id = inst.id@;
                let old_statuses = old(self).spec_statuses();
                let new_statuses = final(self).spec_statuses();
                let expected = recorded_id(old(self).spec_workloads(), id);
                if signal_instruction.signal == SIGNAL_STOP || signal_instruction.signal
                    == SIGNAL_KILL {
                    &&& signal_instruction.signal == SIGNAL_STOP ==> (r matches Ok(
                        SignalAction::Stop(w),
                    ) && acts_on(w, expected))
                    &&& signal_instruction.signal == SIGNAL_KILL ==> (r matches Ok(
                        SignalAction::Kill(w),
                    ) && acts_on(w, expected))
                    &&& final(self).spec_workloads() == old(self).spec_workloads().remove(id)
                    &&& final(self).spec_listeners() == old(self).spec_listeners().remove(id)
                    &&& new_statuses.len() == old_statuses.len() + 2
                    &&& new_statuses.take(old_statuses.len() as int) == old_statuses
                    &&& reports(new_statuses[old_statuses.len() as int], id, STATUS_STOPPING)
                    &&& reports(new_statuses[old_statuses.len() + 1int], id, STATUS_DESTROYING)
                    &&& final(self).spec_sent() == old(self).spec_sent().push(
                        new_statuses[old_statuses.len() as int],
                    ).push(new_statuses[old_statuses.len() + 1int])
                } else {
                    &&& r == Err::<SignalAction, SignalError>(SignalError::UnknownSignal)
                    &&& final(self).spec_workloads() == old(self).spec_workloads()
                    &&& final(self).spec_listeners() == old(self).spec_listeners()
                    &&& new_statuses.len() == old_statuses.len() + 1
                    &&& new_statuses.take(old_statuses.len() as int) == old_statuses
                    &&& reports(new_statuses[old_statuses.len() as int], id, STATUS_STOPPING)
                    &&& final(self).spec_sent() == old(self).spec_sent().push(
                        new_statuses[old_statuses.len() as int],
                    )
                }
            },
    {
        let workload_id = match signal_instruction.instance {
            Some(inst) => inst.id,
            None => return Err(SignalError::MissingInstance),
        };
        let workload: Option<String> = match self.workloads.get(workload_id.as_str()) {
            None => None,
            Some(wrkld) => Some(wrkld.get_id()),
        };
        let ghost before = self.statuses@;
        let stopping = status_report(&workload_id, STATUS_STOPPING);
        proof {
            self.sent@ = self.sent@.push(stopping);
        }
        self.statuses.push(stopping);
        assert(self.spec_received() + self.spec_statuses() =~= self.spec_sent());
        let action = if signal_instruction.signal == SIGNAL_STOP {
            SignalAction::Stop(workload)
        } else if signal_instruction.signal == SIGNAL_KILL {
            SignalAction::Kill(workload)
        } else {
            assert(self.statuses@.take(before.len() as int) =~= before);
            return Err(SignalError::UnknownSignal);
        };
        let destroying = status_report(&workload_id, STATUS_DESTROYING);
        proof {
            self.sent@ = self.sent@.push(destroying);
        }
        self.statuses.push(destroying);
        assert(self.spec_received() + self.spec_statuses() =~= self.spec_sent());
        assert(self.statuses@.take(before.len() as int) =~= before);
        self.listeners.remove(workload_id.as_str());
        self.workloads.remove(workload_id.as_str());
        Ok(action)
    }

    /// Receives the oldest pending status, if any: it is the next status sent
    /// after those already received.
    pub fn receive(&mut self) -> (r: Option<InstanceStatus>)
        requires
            old(self).wf(),
        ensures
            final(self).wf(),
            final(self).spec_sent() == old(self).spec_sent(),
            final(self).spec_workloads() == old(self).spec_workloads(),
            final(self).spec_listeners() == old(self).spec_listeners(),
            old(self).spec_statuses().len() == 0 ==> r is None && *final(self) == *old(self),
            old(self).spec_statuses().len() > 0 ==> r == Some(
                old(self).spec_sent()[old(self).spec_received().len() as int],
            ) && r == Some(old(self).spec_statuses()[0]) && final(self).spec_statuses() == old(
                self).spec_statuses().drop_first() && final(self).spec_received() == old(
                self).spec_received().push(r->0),
    {
        if self.statuses.len() == 0 {
            None
        } else {
            let ghost pending = self.statuses@;
            let first = self.statuses.remove(0);
            proof {
                self.received@ = self.received@.push(first);
                assert(old(self).spec_sent()[old(self).spec_received().len() as int] == pending[0]);
                assert(self.spec_received() + self.spec_statuses() =~= self.spec_sent());
            }
            Some(first)
        }
    }

    /// The number of workloads.
    pub fn workload_count(&self) -> (r: usize)
        ensures
            r == self.spec_workloads().len(),
    {
        self.workloads.len()
    }

    /// The number of listeners.
    pub fn listener_count(&self) -> (r: usize)
        ensures
            r == self.spec_listeners().len(),
    {
        self.listeners.len()
    }

    /// A summary such as `workloads: 2, listeners: 0`.
    pub fn to_string(&self) -> (r: String)
        ensures
            r@ == "workloads: "@ + crate::net::decimal(self.spec_workloads().len()) + ", listeners: "@
                + crate::net::decimal(self.spec_listeners().len()),
    {
        let mut s = String::from_str("workloads: ");
        s.append(decimal_string(self.workloads.len() as u64).as_str());
        s.append(", listeners: ");
        s.append(decimal_string(self.listeners.len() as u64).as_str());
        s
    }
}

impl Default for WorkloadManager {
    fn default() -> (r: WorkloadManager)
        ensures
            r.wf(),
            r.spec_workloads() == Map::<Seq<char>, Workload>::empty(),
            r.spec_listeners() == Map::<Seq<char>, String>::empty(),
            r.spec_statuses().len() == 0,
            r.spec_sent().len() == 0,
            r.spec_received().len() == 0,
    {
        WorkloadManager::new()
    }
}

/// Statuses come out in the order they were sent, each once: while the queue
/// is consistent, the next status received is the first one sent and not yet
/// received, and receiving it keeps the queue consistent. By induction over a
/// run of sends and receives, the statuses received are always the first
/// ones sent, in the order they were sent.
pub proof fn lemma_statuses_received_in_order(
    sent: Seq<InstanceStatus>,
    received: Seq<InstanceStatus>,
    pending: Seq<InstanceStatus>,
    more: Seq<InstanceStatus>,
)
    requires
        received + pending == sent,
    ensures
        received == sent.take(received.len() as int),
        pending == sent.skip(received.len() as int),
        pending.len() > 0 ==> pending[0] == sent[received.len() as int] && received.push(
            pending[0],
        ) + pending.drop_first() == sent,
        received + (pending + more) == sent + more,
{
    assert(sent.take(received.len() as int) =~= received);
    assert(sent.skip(received.len() as int) =~= pending);
    if pending.len() > 0 {
        assert(received.push(pending[0]) + pending.drop_first() =~= sent);
    }
    assert(received + (pending + more) =~= sent + more);
}

} // verus!
