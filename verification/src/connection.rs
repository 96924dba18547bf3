//! The connection lifecycle: one shared handle to the generator service,
//! lazily established on first need and discarded on a transport failure so
//! that the next request reconnects.
//!
//! The manager below is the state that the gateway keeps under its exclusive
//! lock; every observation of it is a whole value of [`ConnState`], so a
//! caller either sees a complete handle or none at all. The spec functions
//! describe the effect of a full inbound request on that state, and the
//! lemmas state how the lifecycle behaves across requests.

use vstd::prelude::*;

verus! {

/// The state of the single upstream connection: absent, or an established
/// handle. The handle is identified by a number the surrounding runtime
/// assigns when it connects.
#[derive(Clone, Copy, Debug, PartialEq, Eq, Structural)]
pub enum ConnState {
    Disconnected,
    Connected(u64),
}

/// Whether a request that finds the connection in state `s` must attempt to
/// establish a new link before it can forward anything.
pub open spec fn spec_needs_connect(s: ConnState) -> bool {
    s is Disconnected
}

/// The effect of one complete inbound request on the connection state.
/// `connect` is what a connect attempt would yield (`None`: upstream
/// unreachable), consulted only when the request finds the state
/// disconnected; `transport_failed` says whether the forwarded call then
/// failed in transport, which discards the handle for the next request.
pub open spec fn spec_request_effect(
    s: ConnState,
    connect: Option<u64>,
    transport_failed: bool,
) -> ConnState {
    let acquired = if s is Disconnected {
        match connect {
            Some(h) => ConnState::Connected(h),
            None => ConnState::Disconnected,
        }
    } else {
        s
    };
    if acquired is Connected && transport_failed {
        ConnState::Disconnected
    } else {
        acquired
    }
}

/// The state after a sequence of requests, each summarized as
/// `(connect, transport_failed)`, applied in the order the lock serializes
/// them.
pub open spec fn spec_run_requests(s: ConnState, evs: Seq<(Option<u64>, bool)>) -> ConnState
    decreases evs.len(),
{
    if evs.len() == 0 {
        s
    } else {
        spec_run_requests(spec_request_effect(s, evs[0].0, evs[0].1), evs.drop_first())
    }
}

/// The owner of the connection state. The surrounding runtime holds it
/// behind its exclusive lock and asks it every decision: whether to connect,
/// what to store after a connect attempt, and when to discard the handle.
#[derive(Clone, Copy, Debug, PartialEq, Eq, Structural)]
pub struct ConnectionManager {
    pub state: ConnState,
}

impl ConnectionManager {
    /// A manager that has never connected.
    pub fn new() -> (r: Self)
        ensures
            r.state is Disconnected,
    {
        ConnectionManager { state: ConnState::Disconnected }
    }

    /// A manager pre-warmed with an already established handle.
    pub fn new_connected(h: u64) -> (r: Self)
        ensures
            r.state == ConnState::Connected(h),
    {
        ConnectionManager { state: ConnState::Connected(h) }
    }

    /// Whether the next request must attempt a fresh connection.
    pub fn needs_connect(&self) -> (b: bool)
        ensures
            b == spec_needs_connect(self.state),
    {
        match self.state {
            ConnState::Disconnected => true,
            ConnState::Connected(_) => false,
        }
    }

    /// The current handle, if one is established: always a whole handle or
    /// none, never anything partial.
    pub fn current_handle(&self) -> (h: Option<u64>)
        ensures
            self.state is Disconnected ==> h is None,
            self.state matches ConnState::Connected(k) ==> h == Some(k),
    {
        match self.state {
            ConnState::Disconnected => None,
            ConnState::Connected(k) => Some(k),
        }
    }

    /// Records a successfully established handle.
    pub fn store_handle(&mut self, h: u64)
        ensures
            final(self).state == ConnState::Connected(h),
    {
        self.state = ConnState::Connected(h);
    }

    /// Discards the handle after a detected transport failure, so the next
    /// request re-establishes the link. Calls already in flight on the old
    /// handle are unaffected; they fail or finish on their own.
    pub fn invalidate(&mut self)
        ensures
            final(self).state is Disconnected,
    {
        self.state = ConnState::Disconnected;
    }

    /// Applies the translator's invalidation decision.
    pub fn apply_invalidation(&mut self, invalidate: bool)
        ensures
            invalidate ==> final(self).state is Disconnected,
            !invalidate ==> *final(self) == *old(self),
    {
        if invalidate {
            self.invalidate();
        }
    }

    /// Runs one request's whole effect on the state: connect if needed with
    /// whatever the attempt yielded, then discard the handle if the
    /// forwarded call failed in transport. Matches [`spec_request_effect`].
    pub fn apply_request(&mut self, connect: Option<u64>, transport_failed: bool)
        ensures
            final(self).state == spec_request_effect(old(self).state, connect, transport_failed),
    {
        if self.needs_connect() {
            match connect {
                Some(h) => self.store_handle(h),
                None => (),
            }
        }
        let connected = match self.state {
            ConnState::Connected(_) => true,
            ConnState::Disconnected => false,
        };
        if connected && transport_failed {
            self.invalidate();
        }
    }
}

/// Reconnection: while the upstream is down, a request leaves the gateway
/// disconnected; once the upstream is reachable again, the next request
/// establishes a handle and leaves the gateway connected to it.
pub proof fn lemma_reconnection(h: u64)
    ensures
        spec_request_effect(ConnState::Disconnected, None, false) == ConnState::Disconnected,
        spec_request_effect(ConnState::Disconnected, Some(h), false) == ConnState::Connected(h),
{
}

/// Invalidation: a transport failure on a connected handle leaves the
/// gateway disconnected, whatever a connect attempt would have yielded, so
/// the next request must attempt a fresh connection rather than reuse the
/// broken handle.
pub proof fn lemma_invalidation(h: u64, connect: Option<u64>)
    ensures
        spec_request_effect(ConnState::Connected(h), connect, true) == ConnState::Disconnected,
        spec_needs_connect(spec_request_effect(ConnState::Connected(h), connect, true)),
{
}

/// Once connected, the gateway stays connected across any requests whose
/// forwarded calls do not fail in transport.
pub proof fn lemma_connected_stays(s: ConnState, evs: Seq<(Option<u64>, bool)>)
    requires
        s is Connected,
        forall|i: int| 0 <= i < evs.len() ==> !(#[trigger] evs[i]).1,
    ensures
        spec_run_requests(s, evs) is Connected,
    decreases evs.len(),
{
    if evs.len() > 0 {
        let next = spec_request_effect(s, evs[0].0, evs[0].1);
        let tail = evs.drop_first();
        assert(next == s);
        assert forall|i: int| 0 <= i < tail.len() implies !(#[trigger] tail[i]).1 by {
            assert(tail[i] == evs[i + 1]);
        }
        lemma_connected_stays(next, tail);
    }
}

/// Convergence: starting disconnected, any non-empty run of requests during
/// which the upstream is reachable (every connect attempt yields a handle)
/// and no forwarded call fails in transport ends with the gateway connected,
/// however the requests interleave under the lock.
pub proof fn lemma_requests_converge(evs: Seq<(Option<u64>, bool)>)
    requires
        evs.len() > 0,
        forall|i: int| 0 <= i < evs.len() ==> (#[trigger] evs[i]).0 is Some,
        forall|i: int| 0 <= i < evs.len() ==> !(#[trigger] evs[i]).1,
    ensures
        spec_run_requests(ConnState::Disconnected, evs) is Connected,
{
    let first = spec_request_effect(ConnState::Disconnected, evs[0].0, evs[0].1);
    let tail = evs.drop_first();
    assert(first is Connected);
    assert forall|i: int| 0 <= i < tail.len() implies !(#[trigger] tail[i]).1 by {
        assert(tail[i] == evs[i + 1]);
    }
    lemma_connected_stays(first, tail);
}

} // verus!
