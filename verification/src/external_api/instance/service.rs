//! The decisions of the instance service. The service reads and writes the
//! store and talks to the scheduler; each method here takes what those
//! answered and says what follows.
use super::model::{
    default_ip, default_ip_address, instance_of_workload, scheduler_request, scheduler_view,
    Instance, InstanceError, InstanceView,
};
use crate::external_api::workload::model::Workload;
use crate::net::{ipv4_after, lemma_allocated_addresses_distinct, host_space, next_ip, next_ipv4, SocketAddrV4};
use crate::proto::controller::{state_of_number, InstanceState};
use crate::proto::scheduler;
use vstd::prelude::*;

verus! {

/// What the store answered to a read of a serialised value.
#[derive(Debug)]
pub enum Stored<T> {
    /// Nothing is stored under the key.
    Absent,
    /// Something is stored that does not parse.
    Unreadable,
    /// The parsed value.
    Present(T),
}

/// The address allocated after `last` (the previously allocated one, if any):
/// `10.0.0.1:0` first, then each time the next address, with the same port.
pub open spec fn allocated_after(last: Option<SocketAddrV4>) -> SocketAddrV4 {
    match last {
        None => SocketAddrV4 { ip: default_ip(), port: 0 },
        Some(a) => SocketAddrV4 { ip: next_ipv4(a.ip), port: a.port },
    }
}

/// The state that a reported status number leaves an instance in: the state
/// it names, or `Scheduling` for a number that names none.
pub open spec fn reported_state(n: i32) -> InstanceState {
    match state_of_number(n) {
        Some(s) => s,
        None => InstanceState::Scheduling,
    }
}

/// Keeps an instance running on the scheduler: it opens a status stream by
/// sending the instance, stores each status it receives, and when the stream
/// ends opens a new one unless the last status said `Terminated`.
pub struct InstanceSupervisor {
    request: scheduler::Instance,
    last_state: InstanceState,
}

impl InstanceSupervisor {
    /// The message that starts the instance on the scheduler.
    pub closed spec fn spec_request(&self) -> scheduler::Instance {
        self.request
    }

    /// The state that the stream reported last (`Scheduling` when it reported nothing).
    pub closed spec fn spec_last_state(&self) -> InstanceState {
        self.last_state
    }

    /// A supervisor for the scheduler message `request`.
    pub fn new(request: scheduler::Instance) -> (r: InstanceSupervisor)
        ensures
            r.spec_request() == request,
            r.spec_last_state() == InstanceState::Scheduling,
    {
        InstanceSupervisor { request, last_state: InstanceState::Scheduling }
    }

    /// A copy of the message to send when a stream is opened.
    pub fn request(&self) -> (r: scheduler::Instance)
        ensures
            scheduler_view(r) == scheduler_view(self.spec_request()),
    {
        self.request.duplicate()
    }

    /// A new stream was opened: nothing is reported on it yet.
    pub fn on_stream_opened(&mut self)
        ensures
            final(self).spec_request() == old(self).spec_request(),
            final(self).spec_last_state() == InstanceState::Scheduling,
    {
        self.last_state = InstanceState::Scheduling;
    }

    /// A status arrived on the stream; returns the key under which it is to be stored.
    pub fn on_status(&mut self, status: &scheduler::InstanceStatus) -> (key: String)
        ensures
            key == status.id,
            final(self).spec_request() == old(self).spec_request(),
            final(self).spec_last_state() == reported_state(status.status),
    {
        self.last_state = match InstanceState::from_i32(status.status) {
            Some(state) => state,
            None => InstanceState::Scheduling,
        };
        status.id.clone()
    }

    /// The stream ended; returns whether to open a new one.
    pub fn on_stream_closed(&self) -> (restart: bool)
        ensures
            restart == (self.spec_last_state() != InstanceState::Terminated),
    {
        match self.last_state {
            InstanceState::Terminated => false,
            _ => true,
        }
    }
}

/// Stores, starts, reads and deletes instances.
pub struct InstanceService {}

impl InstanceService {
    pub fn new() -> (r: InstanceService) {
        InstanceService {}
    }

    /// Allocates the address that follows `last`, as `allocated_after` says.
    pub fn generate_ip(&self, last: Option<SocketAddrV4>) -> (r: SocketAddrV4)
        ensures
            r == allocated_after(last),
    {
        match last {
            Some(addr) => SocketAddrV4::new(next_ip(&addr.ip), addr.port),
            None => SocketAddrV4::new(default_ip_address(), 0),
        }
    }

    /// Starts `new_instance` when the store holds its identifier (`found`):
    /// allocates the address that follows `last` (the last one allocated, if
    /// any), gives it to the instance and returns the supervisor that keeps the
    /// instance running together with the new last address; else `InstanceNotFound`.
    pub fn retrieve_and_start_instance(
        &self,
        found: bool,
        new_instance: Instance,
        last: Option<SocketAddrV4>,
    ) -> (r: Result<(InstanceSupervisor, SocketAddrV4), InstanceError>)
        ensures
            found ==> r is Ok && r->Ok_0.1 == allocated_after(last) && scheduler_view(
                r->Ok_0.0.spec_request(),
            ) == scheduler_request(InstanceView { ip: allocated_after(last), ..new_instance@ })
                && r->Ok_0.0.spec_last_state() == InstanceState::Scheduling,
            !found ==> r is Err && r->Err_0 is InstanceNotFound,
    {
        if found {
            let ip = self.generate_ip(last);
            let supervisor = self.start(new_instance, ip);
            Ok((supervisor, ip))
        } else {
            Err(InstanceError::InstanceNotFound)
        }
    }

    /// Starts an instance of the stored workload (`None` when the store holds
    /// none): the instance built from the workload gets the address that
    /// follows `last`; returns its supervisor and the new last address, or
    /// `InstanceNotFound`.
    pub fn retrieve_and_start_instance_from_workload(
        &self,
        stored: Option<Workload>,
        last: Option<SocketAddrV4>,
    ) -> (r: Result<(InstanceSupervisor, SocketAddrV4), InstanceError>)
        ensures
            stored is Some ==> r is Ok && r->Ok_0.1 == allocated_after(last) && scheduler_view(
                r->Ok_0.0.spec_request(),
            ) == scheduler_request(
                InstanceView { ip: allocated_after(last), ..instance_of_workload(stored->0@) },
            ) && r->Ok_0.0.spec_last_state() == InstanceState::Scheduling,
            stored is None ==> r is Err && r->Err_0 is InstanceNotFound,
    {
        match stored {
            Some(workload) => {
                let ip = self.generate_ip(last);
                let supervisor = self.start(Instance::from(workload), ip);
                Ok((supervisor, ip))
            },
            None => Err(InstanceError::InstanceNotFound),
        }
    }

    /// Gives `instance` the address `ip` and returns the supervisor that keeps it running.
    pub fn start(&self, instance: Instance, ip: SocketAddrV4) -> (r: InstanceSupervisor)
        ensures
            scheduler_view(r.spec_request()) == scheduler_request(
                InstanceView { ip, ..instance@ },
            ),
            r.spec_last_state() == InstanceState::Scheduling,
    {
        let mut instance = instance;
        instance.ip = ip;
        InstanceSupervisor::new(instance.into())
    }

    /// Decides a delete given whether the store removed the instance: the
    /// identifier to destroy on the scheduler, or `InstanceNotFound`.
    pub fn delete_instance(&self, removed: bool, instance: Instance) -> (r: Result<
        scheduler::InstanceIdentifier,
        InstanceError,
    >)
        ensures
            removed ==> r is Ok && r->Ok_0.id == instance.id,
            !removed ==> r is Err && r->Err_0 is InstanceNotFound,
    {
        if removed {
            Ok(scheduler::InstanceIdentifier { id: instance.id })
        } else {
            Err(InstanceError::InstanceNotFound)
        }
    }

    /// Answers a delete given whether the scheduler destroyed the instance.
    pub fn after_destroy(&self, destroyed: bool) -> (r: Result<(), InstanceError>)
        ensures
            destroyed ==> r is Ok,
            !destroyed ==> (r matches Err(InstanceError::Grpc(m)) && m@ == "Error stopping instance"@),
    {
        if destroyed {
            Ok(())
        } else {
            Err(InstanceError::Grpc(String::from_str("Error stopping instance")))
        }
    }

    /// Answers a read of an instance in `namespace` given what the store holds
    /// under its identifier: the instance when it parses and lives in
    /// `namespace`, else `InstanceNotFound`.
    pub fn get_instance(&self, stored: Stored<Instance>, namespace: &String) -> (r: Result<
        Instance,
        InstanceError,
    >)
        ensures
            (stored matches Stored::Present(i) && i.namespace@ == namespace@) ==> r is Ok
                && r->Ok_0 == stored->Present_0,
            !(stored matches Stored::Present(i) && i.namespace@ == namespace@) ==> r is Err
                && r->Err_0 is InstanceNotFound,
    {
        match stored {
            Stored::Present(instance) => {
                if instance.namespace == *namespace {
                    Ok(instance)
                } else {
                    Err(InstanceError::InstanceNotFound)
                }
            },
            _ => Err(InstanceError::InstanceNotFound),
        }
    }
}

/// The address that the `n`-th allocation hands out, counting from 0, when
/// each allocation starts from the one before.
pub open spec fn nth_allocation(n: nat) -> SocketAddrV4 {
    SocketAddrV4 { ip: ipv4_after(default_ip(), n), port: 0 }
}

/// The allocator hands out `10.0.0.1:0`, then `10.0.0.2:0` and so on, and no
/// address twice among its first `host_space()` allocations.
pub proof fn lemma_allocation_sequence(i: nat, j: nat)
    requires
        i < j < host_space(),
    ensures
        allocated_after(None) == nth_allocation(0),
        allocated_after(Some(nth_allocation(i))) == nth_allocation(i + 1),
        nth_allocation(i) != nth_allocation(j),
{
    lemma_allocated_addresses_distinct(default_ip(), i, j);
}

/// The state a stream leaves the supervisor in, given the status numbers it
/// reported in order: that of the last one, `Scheduling` when there was none.
pub open spec fn state_after_stream(reported: Seq<i32>) -> InstanceState {
    if reported.len() == 0 {
        InstanceState::Scheduling
    } else {
        reported_state(reported.last())
    }
}

/// A supervised instance is started again after every stream unless the last
/// status of that stream was `Terminated` (number 5); an empty stream, or one
/// that ends on an unknown number, always restarts it.
pub proof fn lemma_restart_unless_terminated(reported: Seq<i32>)
    ensures
        (state_after_stream(reported) != InstanceState::Terminated) <==> (reported.len() == 0
            || reported.last() != 5),
{
}

/// The supervisor's state after it passes through `reported` one status at a
/// time from `state`, as `on_status` says.
pub open spec fn steps(state: InstanceState, reported: Seq<i32>) -> InstanceState
    decreases reported.len(),
{
    if reported.len() == 0 {
        state
    } else {
        steps(reported_state(reported[0]), reported.drop_first())
    }
}

/// Whether the supervisor opens a new stream after a stream that reported
/// `reported`: `on_stream_opened`, then `on_status` for each status, then
/// `on_stream_closed`.
pub open spec fn restarts_after(reported: Seq<i32>) -> bool {
    steps(InstanceState::Scheduling, reported) != InstanceState::Terminated
}

/// How many of the streams `streams` (each given by the status numbers it
/// reports) the supervisor opens: one after the other, until one ends on `Terminated`.
pub open spec fn streams_opened(streams: Seq<Seq<i32>>) -> nat
    decreases streams.len(),
{
    if streams.len() == 0 {
        0
    } else if !restarts_after(streams[0]) {
        1
    } else {
        1 + streams_opened(streams.drop_first())
    }
}

/// Passing through a stream status by status leaves the state of its last
/// status, or the state it started in when there was none.
pub proof fn lemma_steps(state: InstanceState, reported: Seq<i32>)
    ensures
        steps(state, reported) == (if reported.len() == 0 {
            state
        } else {
            reported_state(reported.last())
        }),
    decreases reported.len(),
{
    if reported.len() > 0 {
        lemma_steps(reported_state(reported[0]), reported.drop_first());
        if reported.len() > 1 {
            assert(reported.drop_first().last() == reported.last());
        }
    }
}

/// Over a whole run of streams, the supervisor opens streams one after the
/// other, each time sending the instance again, as long as the stream before
/// did not end on `Terminated`; it stops after the first stream that does.
/// Every stream it opened but the last restarted it, and when it opened fewer
/// streams than there are, the last one it opened ended on `Terminated`.
pub proof fn lemma_supervision_run(streams: Seq<Seq<i32>>)
    ensures
        streams_opened(streams) <= streams.len(),
        streams.len() > 0 ==> streams_opened(streams) >= 1,
        forall|i: int|
            0 <= i < streams_opened(streams) - 1 ==> restarts_after(#[trigger] streams[i]),
        0 < streams_opened(streams) < streams.len() ==> !restarts_after(
            streams[streams_opened(streams) - 1],
        ),
        forall|i: int|
            0 <= i < streams.len() ==> (restarts_after(#[trigger] streams[i]) <==> state_after_stream(
                streams[i],
            ) != InstanceState::Terminated),
    decreases streams.len(),
{
    assert forall|i: int| 0 <= i < streams.len() implies (restarts_after(#[trigger] streams[i])
        <==> state_after_stream(streams[i]) != InstanceState::Terminated) by {
        lemma_steps(InstanceState::Scheduling, streams[i]);
    }
    if streams.len() > 0 && restarts_after(streams[0]) {
        let rest = streams.drop_first();
        lemma_supervision_run(rest);
        assert forall|i: int| 0 <= i < streams_opened(streams) - 1 implies restarts_after(
            #[trigger] streams[i],
        ) by {
            if i > 0 {
                assert(streams[i] == rest[i - 1]);
            }
        }
        if 0 < streams_opened(streams) < streams.len() {
            assert(streams[streams_opened(streams) - 1] == rest[streams_opened(rest) - 1]);
        }
    }
}

} // verus!
