use led_control::config::{deadline, expired, Phase, ServiceConfig, Timeouts};
use led_control::handler::{step, ConnEvent, HandlerPool, HandlerState};

fn timeouts() -> Timeouts {
    Timeouts {
        start_read_request: Some(5_000),
        read_request: Some(1_000),
        write_response: Some(1_000),
    }
}

#[test]
fn full_request_cycle_with_keep_alive() {
    let keep_alive = true;
    let mut s = HandlerState::AwaitRequestStart;
    s = step(s, ConnEvent::BytesArrived, keep_alive);
    assert_eq!(s, HandlerState::ReadingRequest);
    s = step(s, ConnEvent::RequestComplete, keep_alive);
    assert_eq!(s, HandlerState::Dispatching);
    s = step(s, ConnEvent::ResponseReady, keep_alive);
    assert_eq!(s, HandlerState::WritingResponse);
    s = step(s, ConnEvent::WriteComplete, keep_alive);
    // keep-alive: back to waiting for the next request
    assert_eq!(s, HandlerState::AwaitRequestStart);
}

#[test]
fn full_request_cycle_without_keep_alive() {
    let keep_alive = false;
    let mut s = HandlerState::AwaitRequestStart;
    s = step(s, ConnEvent::BytesArrived, keep_alive);
    s = step(s, ConnEvent::RequestComplete, keep_alive);
    s = step(s, ConnEvent::ResponseReady, keep_alive);
    s = step(s, ConnEvent::WriteComplete, keep_alive);
    assert_eq!(s, HandlerState::Closed);
}

#[test]
fn start_timeout_closes_only_that_connection() {
    let keep_alive = true;
    // one idle connection, one well-behaved connection, interleaved
    let mut idle = HandlerState::AwaitRequestStart;
    let mut busy = HandlerState::AwaitRequestStart;
    busy = step(busy, ConnEvent::BytesArrived, keep_alive);
    idle = step(idle, ConnEvent::StartTimeout, keep_alive);
    assert_eq!(idle, HandlerState::TimedOutClose);
    // the timed-out connection stays closed, whatever arrives later
    idle = step(idle, ConnEvent::BytesArrived, keep_alive);
    assert_eq!(idle, HandlerState::TimedOutClose);
    // the other connection completes normally and unaffected
    busy = step(busy, ConnEvent::RequestComplete, keep_alive);
    busy = step(busy, ConnEvent::ResponseReady, keep_alive);
    busy = step(busy, ConnEvent::WriteComplete, keep_alive);
    assert_eq!(busy, HandlerState::AwaitRequestStart);
}

#[test]
fn read_timeout_and_overflow_are_terminal() {
    let s = step(HandlerState::ReadingRequest, ConnEvent::ReadTimeout, true);
    assert_eq!(s, HandlerState::TimedOutClose);
    let s = step(HandlerState::ReadingRequest, ConnEvent::BufferOverflow, true);
    assert_eq!(s, HandlerState::OversizeClose);
    let s = step(HandlerState::WritingResponse, ConnEvent::WriteTimeout, true);
    assert_eq!(s, HandlerState::TimedOutClose);
}

#[test]
fn transport_error_and_peer_close_close_the_connection() {
    for st in [
        HandlerState::AwaitRequestStart,
        HandlerState::ReadingRequest,
        HandlerState::Dispatching,
        HandlerState::WritingResponse,
    ] {
        assert_eq!(step(st, ConnEvent::TransportError, true), HandlerState::Closed);
        assert_eq!(step(st, ConnEvent::PeerClosed, true), HandlerState::Closed);
    }
}

#[test]
fn bounded_pool_acquire_release() {
    let mut pool = HandlerPool::new(2);
    assert_eq!(pool.size(), 2);
    assert_eq!(pool.acquire(), Some(0));
    assert_eq!(pool.acquire(), Some(1));
    // all slots busy: the listener must wait
    assert_eq!(pool.acquire(), None);
    pool.release(0);
    assert_eq!(pool.acquire(), Some(0));
    assert_eq!(pool.acquire(), None);
}

#[test]
fn config_carries_the_startup_choices() {
    let c = ServiceConfig::new(timeouts(), true, 4, 1024, 1024);
    assert_eq!(c.timeouts.limit_for(Phase::StartReadRequest), Some(5_000));
    assert_eq!(c.timeouts.limit_for(Phase::ReadRequest), Some(1_000));
    assert_eq!(c.timeouts.limit_for(Phase::WriteResponse), Some(1_000));
    assert!(c.keep_alive);
    assert_eq!(c.pool_size, 4);
    let disabled = Timeouts {
        start_read_request: None,
        read_request: None,
        write_response: None,
    };
    let c = ServiceConfig::new(disabled, false, 1, 2048, 2048);
    assert_eq!(c.timeouts.limit_for(Phase::StartReadRequest), None);
}

#[test]
fn deadlines_saturate_and_expire() {
    assert_eq!(deadline(100, 50), 150);
    assert_eq!(deadline(u64::MAX - 10, 50), u64::MAX);
    assert!(!expired(149, 150));
    assert!(expired(150, 150));
    assert!(expired(151, 150));
}
