use quicssh::session::{
    on_accept, on_wake, AcceptAction, AcceptEvent, Direction, Teardown, SIGNAL_CLOSE_CODE,
    SIGNAL_CLOSE_REASON,
};
use quicssh::transport::{client_transport, server_transport, IDLE_TIMEOUT_MS};
use quicssh::trust::{SkipServerVerification, TrustPolicy, Verdict};

#[test]
fn signal_closes_the_connection() {
    assert_eq!(on_wake(false, false, true), Some(Teardown::CloseConnection(0)));
    assert_eq!(SIGNAL_CLOSE_CODE, 0);
    assert_eq!(SIGNAL_CLOSE_REASON, "signal HUP");
}

#[test]
fn signal_wins_over_finishing_loop() {
    assert_eq!(on_wake(true, true, true), Some(Teardown::CloseConnection(0)));
    assert_eq!(Teardown::CloseConnection(0).abandoned(), None);
}

#[test]
fn either_loop_ending_ends_the_session() {
    let up = on_wake(true, false, false).unwrap();
    assert_eq!(up, Teardown::LoopFinished(Direction::Upstream));
    assert_eq!(up.abandoned(), Some(Direction::Downstream));
    let down = on_wake(false, true, false).unwrap();
    assert_eq!(down, Teardown::LoopFinished(Direction::Downstream));
    assert_eq!(down.abandoned(), Some(Direction::Upstream));
}

#[test]
fn session_goes_on_while_nothing_finished() {
    assert_eq!(on_wake(false, false, false), None);
}

#[test]
fn accept_loop_never_stops() {
    assert_eq!(on_accept(AcceptEvent::NothingIncoming), AcceptAction::KeepListening);
    assert_eq!(on_accept(AcceptEvent::HandshakeFailed), AcceptAction::KeepListening);
    assert_eq!(on_accept(AcceptEvent::Established), AcceptAction::SpawnHandler);
}

#[test]
fn transport_policies() {
    let c = client_transport(true);
    assert_eq!(c.idle_timeout_ms, 60_000);
    assert_eq!(IDLE_TIMEOUT_MS, 60_000);
    assert_eq!(c.keep_alive_interval_ms, 1_000);
    assert!(c.mtu_discovery);
    assert_eq!(c.max_concurrent_uni_streams, None);
    let s = server_transport(false);
    assert_eq!(s.idle_timeout_ms, 60_000);
    assert_eq!(s.keep_alive_interval_ms, 1_000);
    assert!(!s.mtu_discovery);
    assert_eq!(s.max_concurrent_uni_streams, Some(0));
}

#[test]
fn skip_verification_accepts_any_chain() {
    let v = SkipServerVerification::new();
    assert_eq!(v.verify(&vec![vec![1, 2, 3]], "example.com"), Verdict::Accept);
    assert_eq!(v.verify(&vec![], ""), Verdict::Accept);
}
