//! The endpoint handlers, as decision tables over one whole inbound
//! request: given the inbound parameters, the connection state the request
//! finds, what a connect attempt would yield and what the forwarded call
//! would return, they fix the response, the connection state left behind,
//! and whether the upstream was contacted at all.
//!
//! The surrounding runtime performs the connect and the call at the points
//! these decisions call for them; the functions here are the sequencing
//! itself, with the contacted flag making explicit that a locally rejected
//! request produces no network activity.

use vstd::prelude::*;

use crate::connection::ConnectionManager;
use crate::connection::ConnState;
use crate::connection::spec_request_effect;
use crate::messages::Failure;
use crate::messages::NumberResponse;
use crate::messages::StringResponse;
use crate::messages::UpstreamStatus;
use crate::translate::interpret_number;
use crate::translate::interpret_string;
use crate::translate::plan_number;
use crate::translate::plan_string;
use crate::translate::spec_classify;
use crate::translate::spec_is_transport;
use crate::translate::spec_or_default;

verus! {

/// The connection state a request holds after its acquire step: what it
/// found, or what the connect attempt yielded if it found nothing.
pub open spec fn spec_acquired(state: ConnState, connect: Option<u64>) -> ConnState {
    if state is Disconnected {
        match connect {
            Some(h) => ConnState::Connected(h),
            None => ConnState::Disconnected,
        }
    } else {
        state
    }
}

/// One whole number request: defaults, local validation, a single acquire
/// attempt, a single forwarded call, and the classification of its outcome.
/// The result is the response, the connection state left for the next
/// request, and whether the upstream was contacted. An invalid range is
/// answered locally: nothing is contacted and the state is untouched.
pub fn handle_number(
    min: Option<i32>,
    max: Option<i32>,
    state: ConnState,
    connect: Option<u64>,
    outcome: Result<i32, UpstreamStatus>,
) -> (r: (Result<NumberResponse, Failure>, ConnState, bool))
    ensures
        ({
            let m = spec_or_default(min, 1);
            let x = spec_or_default(max, 100);
            let acquired = spec_acquired(state, connect);
            &&& m > x ==> (r.0 matches Err(f) && f.kind is Validation && r.1 == state && r.2
                == false)
            &&& m <= x && acquired is Disconnected ==> (r.0 matches Err(f)
                && f.kind is UpstreamUnavailable && r.1 is Disconnected && r.2 == true)
            &&& m <= x && acquired is Connected ==> r.2 == true && (match outcome {
                Ok(n) => r.0 matches Ok(resp) && resp.number == n,
                Err(s) => r.0 matches Err(f) && f.kind == spec_classify(s.kind) && f.message@
                    == s.message@,
            })
            &&& m <= x ==> r.1 == spec_request_effect(
                state,
                connect,
                (outcome matches Err(s) && spec_is_transport(s.kind)),
            )
        }),
{
    match plan_number(min, max) {
        Ok(_) => (),
        Err(f) => {
            return (Err(f), state, false);
        },
    }
    let mut manager = ConnectionManager { state };
    if manager.needs_connect() {
        match connect {
            Some(h) => manager.store_handle(h),
            None => {
                return (Err(Failure::connect_failed()), ConnState::Disconnected, true);
            },
        }
    }
    let (resp, invalidate) = interpret_number(outcome);
    manager.apply_invalidation(invalidate);
    (resp, manager.state, true)
}

/// One whole string request, sequenced exactly as [`handle_number`]: a
/// non-positive length is answered locally, with no upstream contact and
/// the state untouched.
pub fn handle_string(
    length: Option<i32>,
    char_type: Option<i32>,
    state: ConnState,
    connect: Option<u64>,
    outcome: Result<String, UpstreamStatus>,
) -> (r: (Result<StringResponse, Failure>, ConnState, bool))
    ensures
        ({
            let l = spec_or_default(length, 10);
            let acquired = spec_acquired(state, connect);
            &&& l <= 0 ==> (r.0 matches Err(f) && f.kind is Validation && r.1 == state && r.2
                == false)
            &&& l > 0 && acquired is Disconnected ==> (r.0 matches Err(f)
                && f.kind is UpstreamUnavailable && r.1 is Disconnected && r.2 == true)
            &&& l > 0 && acquired is Connected ==> r.2 == true && (match outcome {
                Ok(v) => r.0 matches Ok(resp) && resp.value@ == v@,
                Err(s) => r.0 matches Err(f) && f.kind == spec_classify(s.kind) && f.message@
                    == s.message@,
            })
            &&& l > 0 ==> r.1 == spec_request_effect(
                state,
                connect,
                (outcome matches Err(s) && spec_is_transport(s.kind)),
            )
        }),
{
    match plan_string(length, char_type) {
        Ok(_) => (),
        Err(f) => {
            return (Err(f), state, false);
        },
    }
    let mut manager = ConnectionManager { state };
    if manager.needs_connect() {
        match connect {
            Some(h) => manager.store_handle(h),
            None => {
                return (Err(Failure::connect_failed()), ConnState::Disconnected, true);
            },
        }
    }
    let (resp, invalidate) = interpret_string(outcome);
    manager.apply_invalidation(invalidate);
    (resp, manager.state, true)
}

} // verus!
