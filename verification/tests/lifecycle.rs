use random_gateway::connection::ConnectionManager;
use random_gateway::generator::RandomGeneratorService;
use random_gateway::messages::Failure;
use random_gateway::messages::FailureKind;
use random_gateway::messages::NumberRequest;
use random_gateway::messages::StatusKind;
use random_gateway::messages::UpstreamStatus;
use random_gateway::translate::http_status;
use random_gateway::translate::interpret_number;

#[test]
fn starts_disconnected_and_lazily_connects() {
    let mut manager = ConnectionManager::new();
    assert!(manager.needs_connect());
    assert_eq!(manager.current_handle(), None);

    manager.store_handle(11);
    assert!(!manager.needs_connect());
    assert_eq!(manager.current_handle(), Some(11));
}

#[test]
fn reconnection_scenario() {
    // The upstream is down: the first request cannot connect, answers
    // service-unavailable, and leaves the gateway disconnected.
    let mut manager = ConnectionManager::new();
    assert!(manager.needs_connect());
    manager.apply_request(None, false);
    assert_eq!(manager.current_handle(), None);
    let failure: Failure = Failure::connect_failed();
    assert_eq!(failure.kind, FailureKind::UpstreamUnavailable);
    assert_eq!(http_status(failure.kind), 503);

    // The upstream recovers: the second request connects and succeeds with
    // a valid value.
    assert!(manager.needs_connect());
    manager.apply_request(Some(1), false);
    assert_eq!(manager.current_handle(), Some(1));
    let svc = RandomGeneratorService::default();
    let outcome = svc
        .get_random_number(&NumberRequest { min: 2, max: 6 })
        .map(|resp| resp.number);
    let (resp, invalidate) = interpret_number(outcome);
    let number = resp.unwrap().number;
    assert!(2 <= number && number <= 6);
    assert!(!invalidate);
}

#[test]
fn invalidation_scenario() {
    // A connected handle sees a transport failure: the translator asks for
    // invalidation, and the next request must connect afresh instead of
    // reusing the broken handle.
    let mut manager = ConnectionManager::new_connected(7);
    assert!(!manager.needs_connect());

    let (resp, invalidate) = interpret_number(Err(UpstreamStatus {
        kind: StatusKind::Unavailable,
        message: String::from("connection reset"),
    }));
    assert_eq!(resp.unwrap_err().kind, FailureKind::UpstreamUnavailable);
    assert!(invalidate);

    manager.apply_invalidation(invalidate);
    assert!(manager.needs_connect());
    assert_eq!(manager.current_handle(), None);
}

#[test]
fn domain_rejection_keeps_the_connection() {
    let mut manager = ConnectionManager::new_connected(3);
    let (_, invalidate) = interpret_number(Err(UpstreamStatus {
        kind: StatusKind::InvalidArgument,
        message: String::from("min must be less than or equal to max"),
    }));
    assert!(!invalidate);
    manager.apply_invalidation(invalidate);
    assert_eq!(manager.current_handle(), Some(3));
}

#[test]
fn requests_against_reachable_upstream_converge_to_connected() {
    // Requests that start while the gateway is disconnected, serialized by
    // the lock in some order: each either connects or reuses the handle, and
    // every observation is a whole handle or none.
    let mut manager = ConnectionManager::new();
    for i in 0..5u64 {
        manager.apply_request(Some(i + 100), false);
        assert!(manager.current_handle().is_some());
    }
    // The first request's connect wins; later ones reuse its handle.
    assert_eq!(manager.current_handle(), Some(100));
}
