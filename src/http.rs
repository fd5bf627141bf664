//! Requests and responses as plain values.
use vstd::prelude::*;

use crate::json::JsonError;

verus! {

/// The address the service listens on: every interface.
pub const HOST: &'static str = "0.0.0.0";

/// The port the service listens on.
pub const PORT: u16 = 8080;

pub const STATUS_OK: u16 = 200;

pub const STATUS_NOT_FOUND: u16 = 404;

pub const STATUS_INTERNAL_SERVER_ERROR: u16 = 500;

/// A request method; the methods that HTTP defines by name, and any other.
#[derive(Clone, Copy, Debug, PartialEq, Eq, Structural)]
pub enum Method {
    Get,
    Head,
    Post,
    Put,
    Delete,
    Connect,
    Options,
    Trace,
    Patch,
    Other,
}

/// A response: its status, its `Content-Type` if it has one, and its body.
#[derive(Debug)]
pub struct Response {
    pub status: u16,
    pub content_type: Option<String>,
    pub body: String,
}

/// The media type of a JSON body.
pub open spec fn json_media_type() -> Seq<char> {
    "application/json"@
}

/// `r` is a success that carries `body` as JSON.
pub open spec fn is_json_response(r: Response, body: Seq<char>) -> bool {
    &&& r.status == STATUS_OK
    &&& r.content_type matches Some(t) && t@ == json_media_type()
    &&& r.body@ == body
}

/// `r` has the given status, no content type and an empty body.
pub open spec fn is_bare_response(r: Response, status: u16) -> bool {
    &&& r.status == status
    &&& r.content_type is None
    &&& r.body@.len() == 0
}

/// A response with the given status and nothing else.
pub fn bare_response(status: u16) -> (r: Response)
    ensures
        is_bare_response(r, status),
{
    Response { status, content_type: None, body: String::new() }
}

/// The answer to a request that no route takes.
pub fn not_found() -> (r: Response)
    ensures
        is_bare_response(r, STATUS_NOT_FOUND),
{
    bare_response(STATUS_NOT_FOUND)
}

/// The response for a JSON body: a success carrying it when it was encoded, an
/// internal server error when encoding failed.
pub fn json_response(body: Result<String, JsonError>) -> (r: Response)
    ensures
        body matches Ok(b) ==> is_json_response(r, b@),
        body is Err ==> is_bare_response(r, STATUS_INTERNAL_SERVER_ERROR),
{
    match body {
        Ok(b) => Response {
            status: STATUS_OK,
            content_type: Some(String::from_str("application/json")),
            body: b,
        },
        Err(_) => bare_response(STATUS_INTERNAL_SERVER_ERROR),
    }
}

} // verus!
