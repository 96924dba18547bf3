//! Request, response and failure shapes shared by the generator backend and
//! the gateway.

use vstd::prelude::*;

verus! {

/// A request for a random integer drawn from the inclusive range
/// `[min, max]`.
#[derive(Clone, Copy, Debug, PartialEq, Eq, Structural)]
pub struct NumberRequest {
    pub min: i32,
    pub max: i32,
}

/// A request for a random string of `length` characters drawn from the
/// character set selected by `char_type`.
#[derive(Clone, Copy, Debug, PartialEq, Eq, Structural)]
pub struct StringRequest {
    pub length: i32,
    pub char_type: i32,
}

/// A successful answer to a [`NumberRequest`].
#[derive(Clone, Copy, Debug, PartialEq, Eq, Structural)]
pub struct NumberResponse {
    pub number: i32,
}

/// A successful answer to a [`StringRequest`].
#[derive(Clone, Debug, PartialEq, Eq)]
pub struct StringResponse {
    pub value: String,
}

/// The classification of a status reported by the upstream generator, as the
/// gateway reads it: a domain-level rejection of the arguments, a peer that
/// is unreachable or closed, a call that ran out of time, or anything else.
#[derive(Clone, Copy, Debug, PartialEq, Eq, Structural)]
pub enum StatusKind {
    InvalidArgument,
    Unavailable,
    DeadlineExceeded,
    Other,
}

/// A failure reported by the upstream generator, reduced to the fields the
/// gateway's decisions depend on.
#[derive(Clone, Debug, PartialEq, Eq)]
pub struct UpstreamStatus {
    pub kind: StatusKind,
    pub message: String,
}

/// The gateway's own failure taxonomy: bad caller input, an upstream that
/// cannot be reached or kept, and everything unexpected.
#[derive(Clone, Copy, Debug, PartialEq, Eq, Structural)]
pub enum FailureKind {
    Validation,
    UpstreamUnavailable,
    Internal,
}

/// A failure as the gateway reports it to its own caller.
#[derive(Clone, Debug, PartialEq, Eq)]
pub struct Failure {
    pub kind: FailureKind,
    pub message: String,
}

impl UpstreamStatus {
    /// Builds the rejection the generator reports for an empty number range.
    pub fn invalid_range() -> (r: UpstreamStatus)
        ensures
            r.kind is InvalidArgument,
            r.message@ == "min must be less than or equal to max"@,
    {
        UpstreamStatus {
            kind: StatusKind::InvalidArgument,
            message: String::from_str("min must be less than or equal to max"),
        }
    }

    /// Builds the rejection the generator reports for a non-positive length.
    pub fn invalid_length() -> (r: UpstreamStatus)
        ensures
            r.kind is InvalidArgument,
            r.message@ == "length must be greater than 0"@,
    {
        UpstreamStatus {
            kind: StatusKind::InvalidArgument,
            message: String::from_str("length must be greater than 0"),
        }
    }
}

impl Failure {
    /// Builds the service-unavailable failure the gateway reports when no
    /// connection to the generator can be established.
    pub fn connect_failed() -> (r: Failure)
        ensures
            r.kind is UpstreamUnavailable,
            r.message@ == "failed to connect to the generator service"@,
    {
        Failure {
            kind: FailureKind::UpstreamUnavailable,
            message: String::from_str("failed to connect to the generator service"),
        }
    }
}

} // verus!
