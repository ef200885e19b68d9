//! The replies of the instance HTTP routes on `/instance/<namespace>`
//! (PUT, DELETE, PATCH, GET). Each handler waits for the services between its
//! decisions; each decision is a function here from the answer it waits for
//! to what the handler does next.
use super::model::{Instance, InstanceError};
use crate::http::{
    internal_error, internal_error_text, is_reply, reply, HttpReply, CREATED,
    INTERNAL_SERVER_ERROR, NOT_FOUND, OK,
};
use crate::net::{Ipv4Addr, SocketAddrV4};
use vstd::prelude::*;

verus! {

/// What an instance handler does next.
#[derive(Debug)]
pub enum InstanceStep {
    /// Start this instance (it was found in the store).
    StartInstance(Instance),
    /// Look the requested identifier up among the workloads.
    LookupWorkload,
    /// Start a new instance from the workload with the requested identifier.
    StartFromWorkload,
    /// Delete this instance (it was found in the store).
    DeleteInstance(Instance),
    /// Look the instance up (the workload was found).
    LookupInstance,
    /// Serialise this instance into the reply's body.
    Serialize(Instance),
    /// Answer the client with this reply.
    Reply(HttpReply),
}

/// Whether `s` is the reply with status `status` and body `body`.
pub open spec fn is_reply_step(s: InstanceStep, status: u16, body: Seq<char>) -> bool {
    s matches InstanceStep::Reply(r) && is_reply(r, status, body)
}

/// Maps instance service answers to HTTP replies.
pub struct InstanceController {}

impl InstanceController {
    /// The store address that the instance routes fall back to: `0.0.0.0:0`.
    pub fn get_etcd_address() -> (r: SocketAddrV4)
        ensures
            r == (SocketAddrV4 { ip: Ipv4Addr { a: 0, b: 0, c: 0, d: 0 }, port: 0 }),
    {
        SocketAddrV4::new(Ipv4Addr::new(0, 0, 0, 0), 0)
    }

    /// PUT, first answer (the instance lookup): start the instance when found,
    /// else look for a workload with that identifier.
    pub fn put_instance(found: Result<Instance, InstanceError>) -> (r: InstanceStep)
        ensures
            found is Ok ==> (r matches InstanceStep::StartInstance(i) && i == found->Ok_0),
            found is Err ==> r is LookupWorkload,
    {
        match found {
            Ok(instance) => InstanceStep::StartInstance(instance),
            Err(_) => InstanceStep::LookupWorkload,
        }
    }

    /// PUT, second answer (the workload lookup): start an instance of it when
    /// found, else `404`.
    pub fn put_instance_on_workload(found: bool) -> (r: InstanceStep)
        ensures
            found ==> r is StartFromWorkload,
            !found ==> is_reply_step(r, NOT_FOUND, "Instance not found"@),
    {
        if found {
            InstanceStep::StartFromWorkload
        } else {
            InstanceStep::Reply(reply(NOT_FOUND, "Instance not found"))
        }
    }

    /// PUT, last answer (the start): `201` when it went through, else `500`.
    pub fn put_instance_on_started(started: Result<(), InstanceError>, from_workload: bool) -> (r:
        HttpReply)
        ensures
            started is Ok && !from_workload ==> is_reply(
                r,
                CREATED,
                "Instance creating and starting..."@,
            ),
            started is Ok && from_workload ==> is_reply(r, CREATED, "Instance creating..."@),
            started is Err ==> is_reply(r, INTERNAL_SERVER_ERROR, internal_error_text()),
    {
        match started {
            Ok(_) => {
                if from_workload {
                    reply(CREATED, "Instance creating...")
                } else {
                    reply(CREATED, "Instance creating and starting...")
                }
            },
            Err(_) => internal_error(),
        }
    }

    /// DELETE, first answer (the instance lookup): delete it when found, else `404`.
    pub fn delete_instance(found: Result<Instance, InstanceError>) -> (r: InstanceStep)
        ensures
            found is Ok ==> (r matches InstanceStep::DeleteInstance(i) && i == found->Ok_0),
            found is Err ==> is_reply_step(r, NOT_FOUND, "Instance not found"@),
    {
        match found {
            Ok(instance) => InstanceStep::DeleteInstance(instance),
            Err(_) => InstanceStep::Reply(reply(NOT_FOUND, "Instance not found")),
        }
    }

    /// DELETE, last answer (the delete): `200` when it went through, else `500`.
    pub fn delete_instance_on_deleted(deleted: Result<(), InstanceError>) -> (r: HttpReply)
        ensures
            deleted is Ok ==> is_reply(r, OK, "Instance deleted"@),
            deleted is Err ==> is_reply(r, INTERNAL_SERVER_ERROR, internal_error_text()),
    {
        match deleted {
            Ok(_) => reply(OK, "Instance deleted"),
            Err(_) => internal_error(),
        }
    }

    /// PATCH, first answer (the instance lookup): delete it (to start it
    /// afresh) when found, else `404`.
    pub fn patch_instance(found: Result<Instance, InstanceError>) -> (r: InstanceStep)
        ensures
            found is Ok ==> (r matches InstanceStep::DeleteInstance(i) && i == found->Ok_0),
            found is Err ==> is_reply_step(r, NOT_FOUND, "Instance not found"@),
    {
        InstanceController::delete_instance(found)
    }

    /// PATCH, second answer (the delete of `instance`): start it again when the
    /// delete went through, else `500`.
    pub fn patch_instance_on_deleted(deleted: Result<(), InstanceError>, instance: Instance) -> (r:
        InstanceStep)
        ensures
            deleted is Ok ==> (r matches InstanceStep::StartInstance(i) && i == instance),
            deleted is Err ==> is_reply_step(r, INTERNAL_SERVER_ERROR, internal_error_text()),
    {
        match deleted {
            Ok(_) => InstanceStep::StartInstance(instance),
            Err(_) => InstanceStep::Reply(internal_error()),
        }
    }

    /// PATCH, last answer (the start): `201` when it went through, else `500`.
    pub fn patch_instance_on_started(started: Result<(), InstanceError>) -> (r: HttpReply)
        ensures
            started is Ok ==> is_reply(r, CREATED, "Instance creating and starting..."@),
            started is Err ==> is_reply(r, INTERNAL_SERVER_ERROR, internal_error_text()),
    {
        InstanceController::put_instance_on_started(started, false)
    }

    /// GET, first answer (the workload lookup): look the instance up when the
    /// workload exists, else `404`.
    pub fn get_instance(workload_found: bool) -> (r: InstanceStep)
        ensures
            workload_found ==> r is LookupInstance,
            !workload_found ==> is_reply_step(r, NOT_FOUND, "Instance not founded"@),
    {
        if workload_found {
            InstanceStep::LookupInstance
        } else {
            InstanceStep::Reply(reply(NOT_FOUND, "Instance not founded"))
        }
    }

    /// GET, second answer (the instance lookup): serialise it when found, else `500`.
    pub fn get_instance_on_instance(found: Result<Instance, InstanceError>) -> (r: InstanceStep)
        ensures
            found is Ok ==> (r matches InstanceStep::Serialize(i) && i == found->Ok_0),
            found is Err ==> is_reply_step(r, INTERNAL_SERVER_ERROR, internal_error_text()),
    {
        match found {
            Ok(instance) => InstanceStep::Serialize(instance),
            Err(_) => InstanceStep::Reply(internal_error()),
        }
    }

    /// GET, last answer (the serialisation): `200` with the text, else `500`.
    pub fn get_instance_on_serialized(body: Option<String>) -> (r: HttpReply)
        ensures
            body is Some ==> is_reply(r, OK, body->0@),
            body is None ==> is_reply(r, INTERNAL_SERVER_ERROR, internal_error_text()),
    {
        match body {
            Some(text) => HttpReply { status: OK, body: text },
            None => internal_error(),
        }
    }
}

} // verus!
