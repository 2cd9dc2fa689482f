use tproxy::proxy::{Phase, Proxy, ProxyAction, ProxyEvent, GRACEFUL_SHUTDOWN_TIMEOUT_MS};

#[test]
fn successful_dial_spawns_a_handler() {
    let mut proxy = Proxy::new();
    assert_eq!(proxy.phase, Phase::Running);
    assert!(proxy.accepting());
    assert_eq!(proxy.step(ProxyEvent::AcceptedDialOk), ProxyAction::SpawnHandler);
    assert_eq!(proxy.live_handlers, 1);
}

#[test]
fn failed_dial_drops_only_that_connection() {
    let mut proxy = Proxy::new();
    // Ten inbound connections; the fifth dial fails. The other nine are
    // relayed; the failure changes nothing for them.
    for i in 1..=10 {
        if i == 5 {
            assert_eq!(proxy.step(ProxyEvent::AcceptedDialErr), ProxyAction::DropConnection);
        } else {
            assert_eq!(proxy.step(ProxyEvent::AcceptedDialOk), ProxyAction::SpawnHandler);
        }
    }
    assert_eq!(proxy.live_handlers, 9);
    assert!(proxy.accepting());
    for _ in 1..=9 {
        proxy.step(ProxyEvent::HandlerFinished);
    }
    assert_eq!(proxy.live_handlers, 0);
    assert_eq!(proxy.phase, Phase::Running);
}

#[test]
fn cancellation_stops_accepting_and_lets_handlers_drain() {
    let mut proxy = Proxy::new();
    proxy.step(ProxyEvent::AcceptedDialOk);
    proxy.step(ProxyEvent::AcceptedDialOk);
    assert_eq!(proxy.step(ProxyEvent::Cancelled), ProxyAction::BeginDrain);
    assert_eq!(proxy.phase, Phase::Draining);
    assert!(!proxy.accepting());
    // The live handlers run on and finish one by one.
    assert_eq!(proxy.live_handlers, 2);
    assert_eq!(proxy.step(ProxyEvent::HandlerFinished), ProxyAction::Ignore);
    assert_eq!(proxy.step(ProxyEvent::HandlerFinished), ProxyAction::Exit);
    assert_eq!(proxy.phase, Phase::Terminated);
    assert!(!proxy.timed_out);
}

#[test]
fn cancellation_with_no_handlers_terminates_at_once() {
    let mut proxy = Proxy::new();
    assert_eq!(proxy.step(ProxyEvent::Cancelled), ProxyAction::BeginDrain);
    assert_eq!(proxy.phase, Phase::Terminated);
    assert!(!proxy.timed_out);
}

#[test]
fn drain_timeout_terminates_with_a_warning() {
    let mut proxy = Proxy::new();
    proxy.step(ProxyEvent::AcceptedDialOk);
    proxy.step(ProxyEvent::Cancelled);
    assert_eq!(proxy.phase, Phase::Draining);
    assert_eq!(proxy.step(ProxyEvent::DrainTimeout), ProxyAction::Exit);
    assert_eq!(proxy.phase, Phase::Terminated);
    assert!(proxy.timed_out);
    // The stalled handler was never forced: its reference is still live.
    assert_eq!(proxy.live_handlers, 1);
}

#[test]
fn fatal_accept_failure_begins_the_drain() {
    let mut proxy = Proxy::new();
    proxy.step(ProxyEvent::AcceptedDialOk);
    assert_eq!(proxy.step(ProxyEvent::AcceptFatal), ProxyAction::BeginDrain);
    assert_eq!(proxy.phase, Phase::Draining);
    assert!(proxy.fatal_accept);
}

#[test]
fn terminated_is_final() {
    let mut proxy = Proxy::new();
    proxy.step(ProxyEvent::Cancelled);
    assert_eq!(proxy.phase, Phase::Terminated);
    for ev in [
        ProxyEvent::AcceptedDialOk,
        ProxyEvent::AcceptedDialErr,
        ProxyEvent::AcceptFatal,
        ProxyEvent::Cancelled,
        ProxyEvent::HandlerFinished,
        ProxyEvent::DrainTimeout,
    ] {
        assert_eq!(proxy.step(ev), ProxyAction::Ignore);
        assert_eq!(proxy.phase, Phase::Terminated);
        assert_eq!(proxy.live_handlers, 0);
    }
}

#[test]
fn the_drain_timeout_is_fifteen_seconds() {
    assert_eq!(GRACEFUL_SHUTDOWN_TIMEOUT_MS, 15000);
}
