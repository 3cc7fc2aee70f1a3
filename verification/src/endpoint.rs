//! Errors that an endpoint answers with: an HTTP status, a message and an
//! optional application error code.
use vstd::prelude::*;
use vstd::string::StringExecFns;
use crate::text::{copy_str, int_text, push_nat_text};
use crate::users::UserDatabaseError;

verus! {

/// An error answered by an endpoint.
pub struct EndpointError {
    /// The HTTP status code.
    pub status: u16,
    pub message: String,
    /// An application error code.
    pub error_code: Option<String>,
}

pub const BAD_REQUEST: u16 = 400;
pub const UNAUTHORIZED: u16 = 401;
pub const FORBIDDEN: u16 = 403;
pub const NOT_FOUND: u16 = 404;
pub const CONFLICT: u16 = 409;
pub const UNPROCESSABLE_ENTITY: u16 = 422;
pub const INTERNAL_SERVER_ERROR: u16 = 500;

/// Whether `status` is a valid HTTP status code (three digits, from 100).
pub open spec fn valid_status(status: u16) -> bool {
    100 <= status <= 999
}

impl EndpointError {
    /// The error holds a valid status code.
    pub open spec fn wf(&self) -> bool {
        valid_status(self.status)
    }

    /// An error with `status` and message `msg`, and no error code.
    pub open spec fn plain(&self, status: u16, msg: Seq<char>) -> bool {
        &&& self.status == status
        &&& self.message@ == msg
        &&& self.error_code is None
    }

    /// The text of the error, as its `Display` writes it: `HTTP <status>: <message>`.
    pub open spec fn text(&self) -> Seq<char> {
        "HTTP "@ + int_text(self.status as int) + ": "@ + self.message@
    }

    pub fn bad_request(msg: &str) -> (res: Self)
        ensures
            res.plain(BAD_REQUEST, msg@),
            res.wf(),
    {
        Self { status: BAD_REQUEST, message: copy_str(msg), error_code: None }
    }

    pub fn unauthorized(msg: &str) -> (res: Self)
        ensures
            res.plain(UNAUTHORIZED, msg@),
            res.wf(),
    {
        Self { status: UNAUTHORIZED, message: copy_str(msg), error_code: None }
    }

    pub fn forbidden(msg: &str) -> (res: Self)
        ensures
            res.plain(FORBIDDEN, msg@),
            res.wf(),
    {
        Self { status: FORBIDDEN, message: copy_str(msg), error_code: None }
    }

    pub fn not_found(msg: &str) -> (res: Self)
        ensures
            res.plain(NOT_FOUND, msg@),
            res.wf(),
    {
        Self { status: NOT_FOUND, message: copy_str(msg), error_code: None }
    }

    pub fn conflict(msg: &str) -> (res: Self)
        ensures
            res.plain(CONFLICT, msg@),
            res.wf(),
    {
        Self { status: CONFLICT, message: copy_str(msg), error_code: None }
    }

    pub fn internal_server_error(msg: &str) -> (res: Self)
        ensures
            res.plain(INTERNAL_SERVER_ERROR, msg@),
            res.wf(),
    {
        Self { status: INTERNAL_SERVER_ERROR, message: copy_str(msg), error_code: None }
    }

    pub fn unprocessable_entity(msg: &str) -> (res: Self)
        ensures
            res.plain(UNPROCESSABLE_ENTITY, msg@),
            res.wf(),
    {
        Self { status: UNPROCESSABLE_ENTITY, message: copy_str(msg), error_code: None }
    }

    /// The same error with the application error code `code`.
    pub fn with_code(self, code: &str) -> (res: Self)
        ensures
            res.status == self.status,
            res.message == self.message,
            res.error_code matches Some(c) && c@ == code@,
            self.wf() ==> res.wf(),
    {
        let mut res = self;
        res.error_code = Some(copy_str(code));
        res
    }

    /// An error with the status `status` and message `msg`.
    pub fn custom(status: u16, msg: &str) -> (res: Self)
        requires
            valid_status(status),
        ensures
            res.plain(status, msg@),
            res.wf(),
    {
        Self { status, message: copy_str(msg), error_code: None }
    }

    /// The text of the error: `HTTP <status>: <message>`.
    pub fn to_string(&self) -> (res: String)
        ensures
            res@ == self.text(),
    {
        let mut res = copy_str("HTTP ");
        push_nat_text(&mut res, self.status as u64);
        res.append(": ");
        res.append(self.message.as_str());
        res
    }

    /// The error an endpoint answers for an error of the user store: a
    /// missing user is `404` with its message, an invalid request `400` with
    /// its message, and every other error `500` with a fixed message that
    /// does not show the store's details.
    pub fn from(err: UserDatabaseError) -> (res: Self)
        ensures
            res.wf(),
            match err {
                UserDatabaseError::NotFound(m) => res.plain(NOT_FOUND, m@),
                UserDatabaseError::ValidationError(m) => res.plain(BAD_REQUEST, m@),
                UserDatabaseError::DatabaseError(_) => res.plain(
                    INTERNAL_SERVER_ERROR,
                    "Database error occurred"@,
                ),
                _ => res.plain(INTERNAL_SERVER_ERROR, "An error occured during your request"@),
            },
    {
        match err {
            UserDatabaseError::NotFound(msg) => EndpointError::not_found(msg.as_str()),
            UserDatabaseError::ValidationError(msg) => EndpointError::bad_request(msg.as_str()),
            UserDatabaseError::DatabaseError(_) => EndpointError::internal_server_error(
                "Database error occurred",
            ),
            _ => EndpointError::internal_server_error("An error occured during your request"),
        }
    }
}

} // verus!
