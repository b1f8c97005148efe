//! Status codes returned by every boundary operation.

use vstd::prelude::*;

verus! {

/// Exit status of an operation that succeeded.
pub const EXIT_SUCCESS: i32 = 0;

/// Exit status of an operation that the engine reported as failed.
pub const EXIT_ERROR: i32 = 1;

/// Code of [`Status::Success`].
pub const SUCCESS: i32 = 0;

/// Code of [`Status::InternalError`].
pub const INTERNAL_ERROR: i32 = 1;

/// Code of [`Status::InvalidHandle`].
pub const INVALID_HANDLE: i32 = 2;

/// Code of [`Status::InvalidArgument`].
pub const INVALID_ARGUMENT: i32 = 3;

/// Code of [`Status::BufferTooSmall`].
pub const BUFFER_TOO_SMALL: i32 = 4;

/// Code of [`Status::EncodingError`].
pub const ENCODING_ERROR: i32 = 5;

/// Outcome of a boundary operation.
#[derive(Clone, Copy, Debug, PartialEq, Eq, Structural)]
pub enum Status {
    /// The operation completed; output parameters hold its results.
    Success,
    /// The engine or the codec failed in a way the caller could not foresee.
    InternalError,
    /// The handle is null, destroyed, or was never created.
    InvalidHandle,
    /// An argument is malformed: a null output pointer, an unknown enum code.
    InvalidArgument,
    /// The caller's buffer cannot hold the result.
    BufferTooSmall,
    /// A text argument or result is not valid null-terminated UTF-8.
    EncodingError,
}

impl Status {
    /// The integer that stands for this status at the boundary.
    pub open spec fn spec_code(self) -> i32 {
        match self {
            Status::Success => SUCCESS,
            Status::InternalError => INTERNAL_ERROR,
            Status::InvalidHandle => INVALID_HANDLE,
            Status::InvalidArgument => INVALID_ARGUMENT,
            Status::BufferTooSmall => BUFFER_TOO_SMALL,
            Status::EncodingError => ENCODING_ERROR,
        }
    }

    /// The integer that stands for this status at the boundary.
    #[verifier::when_used_as_spec(spec_code)]
    pub fn code(self) -> (code: i32)
        ensures
            code == self.spec_code(),
    {
        match self {
            Status::Success => SUCCESS,
            Status::InternalError => INTERNAL_ERROR,
            Status::InvalidHandle => INVALID_HANDLE,
            Status::InvalidArgument => INVALID_ARGUMENT,
            Status::BufferTooSmall => BUFFER_TOO_SMALL,
            Status::EncodingError => ENCODING_ERROR,
        }
    }

    /// The status that an integer stands for, if any.
    pub fn from_code(code: i32) -> (status: Option<Status>)
        ensures
            status matches Some(s) ==> s.spec_code() == code,
            status is None <==> !(0 <= code <= 5),
    {
        match code {
            0 => Some(Status::Success),
            1 => Some(Status::InternalError),
            2 => Some(Status::InvalidHandle),
            3 => Some(Status::InvalidArgument),
            4 => Some(Status::BufferTooSmall),
            5 => Some(Status::EncodingError),
            _ => None,
        }
    }

    /// Whether output parameters may be read after an operation that ended
    /// with this status.
    pub fn is_success(self) -> (ok: bool)
        ensures
            ok == (self == Status::Success),
    {
        match self {
            Status::Success => true,
            _ => false,
        }
    }
}

/// The exit status that stands for the boolean outcome of an engine
/// operation: success for `true`, the engine's failure for `false`.
pub open spec fn exit_status(result: bool) -> i32 {
    if result {
        EXIT_SUCCESS
    } else {
        EXIT_ERROR
    }
}

/// Maps the boolean outcome of an engine operation to an exit status.
pub fn to_exit_status(result: bool) -> (status: i32)
    ensures
        status == exit_status(result),
        result ==> status == Status::Success.spec_code(),
        !result ==> status == Status::InternalError.spec_code(),
{
    if result {
        EXIT_SUCCESS
    } else {
        EXIT_ERROR
    }
}

/// Distinct statuses have distinct codes, so a code names one status.
pub proof fn lemma_codes_distinct(a: Status, b: Status)
    ensures
        a.spec_code() == b.spec_code() <==> a == b,
{
}

} // verus!
