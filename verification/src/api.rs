//! Errors and replies of the request handlers.

use vstd::prelude::*;

verus! {

/// HTTP 400.
pub const BAD_REQUEST: u16 = 400;

/// HTTP 401.
pub const UNAUTHORIZED: u16 = 401;

/// HTTP 404.
pub const NOT_FOUND: u16 = 404;

/// HTTP 500.
pub const INTERNAL_SERVER_ERROR: u16 = 500;

/// A refused request: the HTTP status and the message shown to the user.
pub struct ApiError {
    pub status: u16,
    pub message: String,
}

/// Whether a handler's result is the expected one: the same value, or a refusal with
/// the expected status and message.
pub open spec fn outcome_is<T>(r: Result<T, ApiError>, expected: Result<T, (u16, Seq<char>)>) -> bool {
    match (r, expected) {
        (Ok(a), Ok(b)) => a == b,
        (Err(e), Err((status, message))) => e.status == status && e.message@ == message,
        _ => false,
    }
}

/// The view of an optional text.
pub open spec fn opt_view(o: Option<String>) -> Option<Seq<char>> {
    match o {
        Some(s) => Some(s@),
        None => None,
    }
}

impl ApiError {
    /// The refusal with the given status and message.
    pub fn new(status: u16, message: &str) -> (r: ApiError)
        ensures
            r.status == status,
            r.message@ == message@,
    {
        ApiError { status, message: message.to_owned() }
    }
}

/// The reply envelope: whether the operation succeeded, a message, and the data.
pub struct Response<T> {
    pub succeeded: bool,
    pub message: String,
    pub data: Option<T>,
}

/// The message of a successful reply.
pub const OPERATION_SUCCESS: &'static str = "operation success";

impl<T> Response<T> {
    /// A failed reply with the given message and no data.
    pub fn fail(msg: String) -> (r: Response<T>)
        ensures
            !r.succeeded,
            r.message@ == msg@,
            r.data is None,
    {
        Response { succeeded: false, message: msg, data: None }
    }

    /// A successful reply carrying `d`.
    pub fn succeed(d: T) -> (r: Response<T>)
        ensures
            r.succeeded,
            r.message@ == OPERATION_SUCCESS@,
            r.data == Some(d),
    {
        Response { succeeded: true, message: OPERATION_SUCCESS.to_owned(), data: Some(d) }
    }

    /// A successful reply without data.
    pub fn succeed_with_empty() -> (r: Response<T>)
        ensures
            r.succeeded,
            r.message@ == OPERATION_SUCCESS@,
            r.data is None,
    {
        Response { succeeded: true, message: OPERATION_SUCCESS.to_owned(), data: None }
    }
}

} // verus!
