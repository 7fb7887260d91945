//! Reply status of an operation, in the categories the transport reports.

use vstd::prelude::*;

verus! {

/// Message of a builder operation on a built session.
pub const NOT_IN_BUILD_STATE: &'static str = "session is not in build state";

/// Message of a compiler operation on a session still being configured.
pub const NOT_IN_COMPILE_STATE: &'static str = "session is not in compile state";

/// Message of a request whose identifier is missing or unknown.
pub const INVALID_REMOTE_ID: &'static str = "invalid remote id";

/// Message of a module request without tunables or features.
pub const BAD_COMPILE_ENV: &'static str = "Bad compilation environment";

/// Message of a reserved operation.
pub const NOT_IMPLEMENTED: &'static str = "not implemented";

/// Message of a session that cannot be opened for want of random bytes.
pub const NO_RANDOMNESS: &'static str = "no random bytes for a remote id";

/// Message of a freshly drawn identifier that is already registered.
pub const REMOTE_ID_IN_USE: &'static str = "remote id already in use";

/// The category of a failed operation.
#[derive(PartialEq, Eq, Structural, Clone, Copy, Debug)]
pub enum Code {
    /// The session is unknown or in the wrong state for the operation.
    FailedPrecondition,
    /// The request itself is malformed.
    InvalidArgument,
    /// The code generator or the packager failed.
    Internal,
    /// The operation is reserved.
    Unimplemented,
}

/// A failed operation: its category and a message for the client.
#[derive(Debug)]
pub struct Status {
    pub code: Code,
    pub message: String,
}

impl Status {
    pub fn failed_precondition(message: &str) -> (r: Status)
        ensures
            r.code == Code::FailedPrecondition,
            r.message@ == message@,
    {
        Status { code: Code::FailedPrecondition, message: message.to_string() }
    }

    pub fn invalid_argument(message: &str) -> (r: Status)
        ensures
            r.code == Code::InvalidArgument,
            r.message@ == message@,
    {
        Status { code: Code::InvalidArgument, message: message.to_string() }
    }

    pub fn internal(message: &str) -> (r: Status)
        ensures
            r.code == Code::Internal,
            r.message@ == message@,
    {
        Status { code: Code::Internal, message: message.to_string() }
    }

    pub fn unimplemented(message: &str) -> (r: Status)
        ensures
            r.code == Code::Unimplemented,
            r.message@ == message@,
    {
        Status { code: Code::Unimplemented, message: message.to_string() }
    }
}

} // verus!
