//! Requests to the backend and the classification of its replies.
use vstd::prelude::*;
use vstd::string::*;
use crate::screens::login::LoginRequest;
use crate::screens::register::RegisterRequest;
use crate::utils::{api_url_at, joined};

verus! {

/// The HTTP method of a request.
#[derive(Clone, Copy, Debug, PartialEq, Eq, Structural)]
pub enum Method {
    Get,
    Post,
    Put,
    Delete,
}

/// The JSON body a request carries.
#[derive(Debug)]
pub enum Payload {
    Empty,
    Login(LoginRequest),
    Register(RegisterRequest),
    NewTodo(crate::screens::todo::Todo),
    Update(crate::screens::todo::UpdateTodoType),
    NewTask(crate::types::Todo),
}

/// A request ready to send: every request is sent with
/// `Content-Type: application/json`, and with an `Authorization` header
/// when `authorization` holds one.
#[derive(Debug)]
pub struct ApiRequest {
    pub method: Method,
    pub url: String,
    pub authorization: Option<String>,
    pub body: Payload,
}

/// What came of sending a request: it could not be built, the server could
/// not be reached, or it answered with a status and a body that decoded
/// (`Some`) or did not (`None`).
#[derive(Debug)]
pub enum Reply<T> {
    Unbuilt,
    Unreachable,
    Answered(u16, Option<T>),
}

/// Why a request did not yield the value it was sent for.
#[derive(Clone, Copy, Debug, PartialEq, Eq, Structural)]
pub enum ApiError {
    Build,
    Network,
    Status(u16),
    Decode,
}

/// The content type of every request.
pub const CONTENT_TYPE: &'static str = "application/json";

/// A 2xx status.
pub open spec fn is_success(status: u16) -> bool {
    200 <= status < 300
}

/// The value a reply yields, or why it yields none.
pub open spec fn classified<T>(reply: Reply<T>) -> Result<T, ApiError> {
    match reply {
        Reply::Unbuilt => Err(ApiError::Build),
        Reply::Unreachable => Err(ApiError::Network),
        Reply::Answered(status, body) => if !is_success(status) {
            Err(ApiError::Status(status))
        } else {
            match body {
                Some(v) => Ok(v),
                None => Err(ApiError::Decode),
            }
        },
    }
}

/// The status a reply answered with, if the server answered.
pub open spec fn answered_status<T>(reply: Reply<T>) -> Option<u16> {
    match reply {
        Reply::Answered(status, _) => Some(status),
        _ => None,
    }
}

/// The `Authorization` value that carries a bearer token.
pub open spec fn bearer(token: Seq<char>) -> Seq<char> {
    "Bearer "@ + token
}

/// The request carries the session token as a bearer credential, and no
/// credential when there is no token.
pub open spec fn carries_token(authorization: Option<String>, token: Option<String>) -> bool {
    match token {
        Some(t) => authorization is Some && authorization->0@ == bearer(t@),
        None => authorization is None,
    }
}

/// Whether `status` is a 2xx status.
pub fn success_status(status: u16) -> (r: bool)
    ensures
        r == is_success(status),
{
    200 <= status && status < 300
}

/// The value a reply yields, or why it yields none.
pub fn classify<T>(reply: Reply<T>) -> (r: Result<T, ApiError>)
    ensures
        r == classified(reply),
{
    match reply {
        Reply::Unbuilt => Err(ApiError::Build),
        Reply::Unreachable => Err(ApiError::Network),
        Reply::Answered(status, body) => if !success_status(status) {
            Err(ApiError::Status(status))
        } else {
            match body {
                Some(v) => Ok(v),
                None => Err(ApiError::Decode),
            }
        },
    }
}

/// The status a reply answered with, if the server answered.
pub fn status_of<T>(reply: &Reply<T>) -> (r: Option<u16>)
    ensures
        r == answered_status(*reply),
{
    match reply {
        Reply::Answered(status, _) => Some(*status),
        _ => None,
    }
}

/// The `Authorization` value for a session token, if there is one.
pub fn authorization(token: &Option<String>) -> (r: Option<String>)
    ensures
        carries_token(r, *token),
{
    match token {
        Some(t) => {
            let v = String::from_str("Bearer ").concat(t.as_str());
            Some(v)
        },
        None => None,
    }
}

/// A request of `method` to `path` at `origin`, with the session token and
/// a body.
pub fn request(
    method: Method,
    origin: &str,
    path: &str,
    token: &Option<String>,
    body: Payload,
) -> (r: ApiRequest)
    ensures
        r.method == method,
        r.url@ == joined(origin@, path@),
        carries_token(r.authorization, *token),
        r.body == body,
{
    ApiRequest { method, url: api_url_at(origin, path), authorization: authorization(token), body }
}

} // verus!
