//! Replies of the HTTP API, as plain values.
use vstd::prelude::*;

verus! {

/// A reply: an HTTP status code and a text body.
#[derive(Debug)]
pub struct HttpReply {
    pub status: u16,
    pub body: String,
}

/// `200 OK`.
pub const OK: u16 = 200;

/// `201 Created`.
pub const CREATED: u16 = 201;

/// `204 No Content`.
pub const NO_CONTENT: u16 = 204;

/// `404 Not Found`.
pub const NOT_FOUND: u16 = 404;

/// `409 Conflict`.
pub const CONFLICT: u16 = 409;

/// `500 Internal Server Error`.
pub const INTERNAL_SERVER_ERROR: u16 = 500;

/// Whether `r` is the reply with status `status` and body `body`.
pub open spec fn is_reply(r: HttpReply, status: u16, body: Seq<char>) -> bool {
    r.status == status && r.body@ == body
}

/// A reply with a fixed body.
pub fn reply(status: u16, body: &str) -> (r: HttpReply)
    ensures
        is_reply(r, status, body@),
{
    HttpReply { status, body: String::from_str(body) }
}

/// A reply whose body is `prefix` followed by `detail` and then `suffix`.
pub fn reply_with(status: u16, prefix: &str, detail: &String, suffix: &str) -> (r: HttpReply)
    ensures
        is_reply(r, status, prefix@ + detail@ + suffix@),
{
    let mut body = String::from_str(prefix);
    body.append(detail.as_str());
    body.append(suffix);
    HttpReply { status, body }
}

/// The body of most failed requests.
pub open spec fn internal_error_text() -> Seq<char> {
    "Internal Server Error"@
}

/// The reply to a request that failed inside the controller.
pub fn internal_error() -> (r: HttpReply)
    ensures
        is_reply(r, INTERNAL_SERVER_ERROR, internal_error_text()),
{
    reply(INTERNAL_SERVER_ERROR, "Internal Server Error")
}

} // verus!
