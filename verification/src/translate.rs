//! The request translator: it applies the documented defaults to inbound
//! parameters, validates them before any network activity, classifies what
//! the upstream generator reported, and picks the status code the gateway
//! answers with.

use vstd::prelude::*;

use crate::messages::Failure;
use crate::messages::FailureKind;
use crate::messages::NumberRequest;
use crate::messages::NumberResponse;
use crate::messages::StatusKind;
use crate::messages::StringRequest;
use crate::messages::StringResponse;
use crate::messages::UpstreamStatus;

verus! {

/// The value of an optional inbound parameter: the caller's value if one was
/// supplied, the documented default otherwise.
pub open spec fn spec_or_default(p: Option<i32>, d: i32) -> i32 {
    match p {
        Some(v) => v,
        None => d,
    }
}

/// Whether an upstream status means the connection itself is broken: the
/// peer is unreachable or closed, or the call ran out of time (an
/// unresponsive peer is indistinguishable from an unreachable one here).
pub open spec fn spec_is_transport(k: StatusKind) -> bool {
    k is Unavailable || k is DeadlineExceeded
}

/// How an upstream status is reported to the gateway's caller: a domain
/// rejection passes through as a validation failure, a transport failure
/// becomes service-unavailable, everything else is internal.
pub open spec fn spec_classify(k: StatusKind) -> FailureKind {
    if k is InvalidArgument {
        FailureKind::Validation
    } else if spec_is_transport(k) {
        FailureKind::UpstreamUnavailable
    } else {
        FailureKind::Internal
    }
}

/// The local classification of a number request after defaults: `None` when
/// it may be forwarded, the failure kind it is rejected with otherwise.
pub open spec fn spec_number_classification(min: Option<i32>, max: Option<i32>) -> Option<
    FailureKind,
> {
    if spec_or_default(min, 1) > spec_or_default(max, 100) {
        Some(FailureKind::Validation)
    } else {
        None
    }
}

/// The local classification of a string request after defaults: `None` when
/// it may be forwarded, the failure kind it is rejected with otherwise.
pub open spec fn spec_string_classification(length: Option<i32>, char_type: Option<i32>) -> Option<
    FailureKind,
> {
    if spec_or_default(length, 10) <= 0 {
        Some(FailureKind::Validation)
    } else {
        None
    }
}

/// Applies the defaults (`min` 1, `max` 100) and validates a number request
/// locally. An empty range is rejected here, so it never reaches the
/// upstream connection; a valid request comes back ready to forward.
pub fn plan_number(min: Option<i32>, max: Option<i32>) -> (r: Result<NumberRequest, Failure>)
    ensures
        ({
            let m = spec_or_default(min, 1);
            let x = spec_or_default(max, 100);
            &&& m <= x ==> (r matches Ok(q) && q == (NumberRequest { min: m, max: x }))
            &&& m > x ==> (r matches Err(f) && f.kind is Validation && f.message@
                == "min must be less than or equal to max"@)
            &&& (r is Err <==> spec_number_classification(min, max) is Some)
        }),
{
    let m = match min {
        Some(v) => v,
        None => 1,
    };
    let x = match max {
        Some(v) => v,
        None => 100,
    };
    if m > x {
        Err(
            Failure {
                kind: FailureKind::Validation,
                message: String::from_str("min must be less than or equal to max"),
            },
        )
    } else {
        Ok(NumberRequest { min: m, max: x })
    }
}

/// Applies the defaults (`length` 10, `char_type` 0) and validates a string
/// request locally. A non-positive length is rejected here, so it never
/// reaches the upstream connection; an unrecognized `char_type` is not an
/// error, the generator falls back to the alphanumeric set.
pub fn plan_string(length: Option<i32>, char_type: Option<i32>) -> (r: Result<
    StringRequest,
    Failure,
>)
    ensures
        ({
            let l = spec_or_default(length, 10);
            let ct = spec_or_default(char_type, 0);
            &&& l > 0 ==> (r matches Ok(q) && q == (StringRequest { length: l, char_type: ct }))
            &&& l <= 0 ==> (r matches Err(f) && f.kind is Validation && f.message@
                == "length must be greater than 0"@)
            &&& (r is Err <==> spec_string_classification(length, char_type) is Some)
        }),
{
    let l = match length {
        Some(v) => v,
        None => 10,
    };
    let ct = match char_type {
        Some(v) => v,
        None => 0,
    };
    if l <= 0 {
        Err(
            Failure {
                kind: FailureKind::Validation,
                message: String::from_str("length must be greater than 0"),
            },
        )
    } else {
        Ok(StringRequest { length: l, char_type: ct })
    }
}

/// Classifies an upstream status kind into the gateway's failure taxonomy.
pub fn classify_status(k: StatusKind) -> (r: FailureKind)
    ensures
        r == spec_classify(k),
{
    match k {
        StatusKind::InvalidArgument => FailureKind::Validation,
        StatusKind::Unavailable => FailureKind::UpstreamUnavailable,
        StatusKind::DeadlineExceeded => FailureKind::UpstreamUnavailable,
        StatusKind::Other => FailureKind::Internal,
    }
}

/// Maps the outcome of a forwarded number call back into the inbound shape.
/// The second component says whether the connection must be invalidated:
/// exactly on a transport failure, never on a domain rejection or an
/// unclassified error.
pub fn interpret_number(outcome: Result<i32, UpstreamStatus>) -> (r: (
    Result<NumberResponse, Failure>,
    bool,
))
    ensures
        outcome matches Ok(n) ==> (r.0 matches Ok(resp) && resp.number == n && r.1 == false),
        outcome matches Err(s) ==> (r.0 matches Err(f) && f.kind == spec_classify(s.kind)
            && f.message@ == s.message@ && r.1 == spec_is_transport(s.kind)),
{
    match outcome {
        Ok(n) => (Ok(NumberResponse { number: n }), false),
        Err(s) => {
            let invalidate = match s.kind {
                StatusKind::Unavailable => true,
                StatusKind::DeadlineExceeded => true,
                _ => false,
            };
            let kind = classify_status(s.kind);
            (Err(Failure { kind, message: s.message }), invalidate)
        },
    }
}

/// Maps the outcome of a forwarded string call back into the inbound shape;
/// the second component is the invalidation decision, as for numbers.
pub fn interpret_string(outcome: Result<String, UpstreamStatus>) -> (r: (
    Result<StringResponse, Failure>,
    bool,
))
    ensures
        outcome matches Ok(v) ==> (r.0 matches Ok(resp) && resp.value@ == v@ && r.1 == false),
        outcome matches Err(s) ==> (r.0 matches Err(f) && f.kind == spec_classify(s.kind)
            && f.message@ == s.message@ && r.1 == spec_is_transport(s.kind)),
{
    match outcome {
        Ok(v) => (Ok(StringResponse { value: v }), false),
        Err(s) => {
            let invalidate = match s.kind {
                StatusKind::Unavailable => true,
                StatusKind::DeadlineExceeded => true,
                _ => false,
            };
            let kind = classify_status(s.kind);
            (Err(Failure { kind, message: s.message }), invalidate)
        },
    }
}

/// The status code the gateway answers with: a client error for bad input,
/// service-unavailable when the upstream cannot be reached, a generic server
/// error otherwise.
pub fn http_status(kind: FailureKind) -> (s: u16)
    ensures
        kind is Validation ==> s == 400,
        kind is UpstreamUnavailable ==> s == 503,
        kind is Internal ==> s == 500,
{
    match kind {
        FailureKind::Validation => 400,
        FailureKind::UpstreamUnavailable => 503,
        FailureKind::Internal => 500,
    }
}

/// Failure classification is a function of the request alone: two inbound
/// requests with the same parameters are classified alike, and an upstream
/// status of the same kind is reported alike, so repeating the same
/// malformed request yields the same failure classification both times.
pub proof fn lemma_classification_idempotent(
    a_min: Option<i32>,
    a_max: Option<i32>,
    b_min: Option<i32>,
    b_max: Option<i32>,
    a_len: Option<i32>,
    a_ct: Option<i32>,
    b_len: Option<i32>,
    b_ct: Option<i32>,
    a_k: StatusKind,
    b_k: StatusKind,
)
    requires
        a_min == b_min,
        a_max == b_max,
        a_len == b_len,
        a_ct == b_ct,
        a_k == b_k,
    ensures
        spec_number_classification(a_min, a_max) == spec_number_classification(b_min, b_max),
        spec_string_classification(a_len, a_ct) == spec_string_classification(b_len, b_ct),
        spec_classify(a_k) == spec_classify(b_k),
{
}

} // verus!
