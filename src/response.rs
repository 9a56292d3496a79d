use vstd::prelude::*;

verus! {

/// HTTP 201 Created.
pub const CREATED: u16 = 201;

/// HTTP 202 Accepted.
pub const ACCEPTED: u16 = 202;

/// HTTP 400 Bad Request.
pub const BAD_REQUEST: u16 = 400;

/// HTTP 404 Not Found.
pub const NOT_FOUND: u16 = 404;

/// HTTP 409 Conflict.
pub const CONFLICT: u16 = 409;

/// HTTP 500 Internal Server Error.
pub const INTERNAL_SERVER_ERROR: u16 = 500;

/// The envelope every handler answers with.
///
/// `data` is present only on a success path; on every error path it is
/// absent. A success that carries nothing uses `Some(())`.
pub struct ServerResponse<T> {
    pub status: u16,
    pub msg: String,
    pub data: Option<T>,
}

/// True when `r` has the given status and message and no payload.
pub open spec fn is_error_response<T>(r: ServerResponse<T>, status: u16, msg: Seq<char>) -> bool {
    &&& r.status == status
    &&& r.msg@ == msg
    &&& r.data.is_none()
}

impl<T> ServerResponse<T> {
    /// An error envelope: the given status and message, no payload.
    pub fn error(status: u16, msg: &str) -> (r: Self)
        ensures
            is_error_response(r, status, msg@),
    {
        ServerResponse { status, msg: String::from_str(msg), data: None }
    }

    /// A success envelope carrying `data`.
    pub fn success(status: u16, msg: &str, data: T) -> (r: Self)
        ensures
            r.status == status,
            r.msg@ == msg@,
            r.data == Some(data),
    {
        ServerResponse { status, msg: String::from_str(msg), data: Some(data) }
    }
}

} // verus!
