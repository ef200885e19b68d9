//! The replies of the workload HTTP routes: `/workload/<namespace>` (PUT,
//! GET) and `/workload/<namespace>/<workload_id>` (GET, PATCH, DELETE).
use super::model::{Pagination, WorkloadError};
use crate::http::{
    internal_error, internal_error_text, is_reply, reply, reply_with, HttpReply, CONFLICT,
    CREATED, INTERNAL_SERVER_ERROR, NOT_FOUND, NO_CONTENT, OK,
};
use crate::json::{json_string, to_json_string};
use vstd::prelude::*;

verus! {

/// Maps workload service answers to HTTP replies.
pub struct WorkloadController {}

impl WorkloadController {
    /// The reply to a read (GET `/workload/<namespace>/<workload_id>`), given
    /// the service's answer (the workload's JSON text): `200` with that text
    /// written as a JSON string, `404` when not found, `500` otherwise.
    pub fn get_workload(result: Result<String, WorkloadError>) -> (r: HttpReply)
        ensures
            result is Ok ==> is_reply(r, OK, json_string(result->Ok_0@)),
            (result matches Err(WorkloadError::WorkloadNotFound)) ==> is_reply(
                r,
                NOT_FOUND,
                "Workload not found"@,
            ),
            result matches Err(WorkloadError::JsonToWorkload(m)) ==> is_reply(
                r,
                INTERNAL_SERVER_ERROR,
                "Error while converting JSON string to workload : "@ + m@,
            ),
            (result is Err && !(result->Err_0 is WorkloadNotFound) && !(
            result->Err_0 is JsonToWorkload)) ==> is_reply(
                r,
                INTERNAL_SERVER_ERROR,
                internal_error_text(),
            ),
    {
        match result {
            Ok(text) => match to_json_string(text.as_str()) {
                Ok(json) => HttpReply { status: OK, body: json },
                Err(message) => {
                    proof { reveal_strlit(""); }
                    reply_with(
                        INTERNAL_SERVER_ERROR,
                        "Error while converting the workload to json string : ",
                        &message,
                        "",
                    )
                },
            },
            Err(WorkloadError::WorkloadNotFound) => reply(NOT_FOUND, "Workload not found"),
            Err(WorkloadError::JsonToWorkload(message)) => {
                proof { reveal_strlit(""); }
                reply_with(
                    INTERNAL_SERVER_ERROR,
                    "Error while converting JSON string to workload : ",
                    &message,
                    "",
                )
            },
            Err(_) => internal_error(),
        }
    }

    /// The reply to a creation (PUT `/workload/<namespace>`), given the
    /// service's answer (the workload's JSON text): `201` with that text
    /// written as a JSON string, `409` for a taken name, `500` otherwise.
    pub fn put_workload(result: Result<String, WorkloadError>) -> (r: HttpReply)
        ensures
            result is Ok ==> is_reply(r, CREATED, json_string(result->Ok_0@)),
            result matches Err(WorkloadError::Etcd(m)) ==> is_reply(
                r,
                INTERNAL_SERVER_ERROR,
                "Etcd error: "@ + m@ + " "@,
            ),
            result matches Err(WorkloadError::NameAlreadyExists(n)) ==> is_reply(
                r,
                CONFLICT,
                "Workload with name "@ + n@ + " already exists"@,
            ),
            result matches Err(WorkloadError::WorkloadToJson(m)) ==> is_reply(
                r,
                INTERNAL_SERVER_ERROR,
                "Error while converting the workload to json: "@ + m@,
            ),
            (result is Err && !(result->Err_0 is Etcd) && !(result->Err_0 is NameAlreadyExists)
                && !(result->Err_0 is WorkloadToJson)) ==> is_reply(
                r,
                INTERNAL_SERVER_ERROR,
                internal_error_text(),
            ),
    {
        proof { reveal_strlit(""); }
        match result {
            Ok(text) => match to_json_string(text.as_str()) {
                Ok(json) => HttpReply { status: CREATED, body: json },
                Err(message) => reply_with(
                    INTERNAL_SERVER_ERROR,
                    "Error while converting the workload to json: ",
                    &message,
                    "",
                ),
            },
            Err(WorkloadError::Etcd(message)) => reply_with(
                INTERNAL_SERVER_ERROR,
                "Etcd error: ",
                &message,
                " ",
            ),
            Err(WorkloadError::NameAlreadyExists(name)) => reply_with(
                CONFLICT,
                "Workload with name ",
                &name,
                " already exists",
            ),
            Err(WorkloadError::WorkloadToJson(message)) => reply_with(
                INTERNAL_SERVER_ERROR,
                "Error while converting the workload to json: ",
                &message,
                "",
            ),
            Err(_) => internal_error(),
        }
    }

    /// The limit and offset of a listing (GET `/workload/<namespace>`): those
    /// of the query, or 0 and 0 (everything) when it gave none.
    pub fn get_all_workloads(pagination: Option<Pagination>) -> (r: (u32, u32))
        ensures
            pagination is Some ==> r == (pagination->0.limit, pagination->0.offset),
            pagination is None ==> r == (0u32, 0u32),
    {
        match pagination {
            Some(p) => (p.limit, p.offset),
            None => (0, 0),
        }
    }

    /// The reply to an update (PATCH `/workload/<namespace>/<workload_id>`),
    /// given the service's answer (the workload's JSON text): `201` with that
    /// text written as a JSON string, `404` when not found, `500` otherwise.
    pub fn patch_workload(result: Result<String, WorkloadError>) -> (r: HttpReply)
        ensures
            result is Ok ==> is_reply(r, CREATED, json_string(result->Ok_0@)),
            (result matches Err(WorkloadError::WorkloadNotFound)) ==> is_reply(
                r,
                NOT_FOUND,
                "Workload not found"@,
            ),
            result matches Err(WorkloadError::JsonToWorkload(m)) ==> is_reply(
                r,
                INTERNAL_SERVER_ERROR,
                "Error while converting the workload to json: "@ + m@,
            ),
            (result is Err && !(result->Err_0 is WorkloadNotFound) && !(
            result->Err_0 is JsonToWorkload)) ==> is_reply(
                r,
                INTERNAL_SERVER_ERROR,
                internal_error_text(),
            ),
    {
        match result {
            Ok(text) => match to_json_string(text.as_str()) {
                Ok(json) => HttpReply { status: CREATED, body: json },
                Err(message) => {
                    proof { reveal_strlit(""); }
                    reply_with(
                        INTERNAL_SERVER_ERROR,
                        "Error while converting the workload to json: ",
                        &message,
                        "",
                    )
                },
            },
            Err(WorkloadError::WorkloadNotFound) => reply(NOT_FOUND, "Workload not found"),
            Err(WorkloadError::JsonToWorkload(message)) => {
                proof { reveal_strlit(""); }
                reply_with(
                    INTERNAL_SERVER_ERROR,
                    "Error while converting the workload to json: ",
                    &message,
                    "",
                )
            },
            Err(_) => internal_error(),
        }
    }

    /// The reply to a delete (DELETE `/workload/<namespace>/<workload_id>`):
    /// `204` whatever the service answered.
    pub fn delete_workload(result: Result<(), WorkloadError>) -> (r: HttpReply)
        ensures
            is_reply(r, NO_CONTENT, "Remove successfully"@),
    {
        reply(NO_CONTENT, "Remove successfully")
    }
}

} // verus!
