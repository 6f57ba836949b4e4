use challenge_proxy::listener::{ExitStatus, ListenAction, ListenEvent, ListenPhase, Listener, StopLatch};
use challenge_proxy::session::{Action, Event, Phase, Session};

fn listening() -> Listener {
    let mut l = Listener::new();
    assert_eq!(l.phase, ListenPhase::Binding);
    assert_eq!(l.step(ListenEvent::Bound), ListenAction::Accept);
    assert_eq!(l.phase, ListenPhase::Listening);
    l
}

#[test]
fn each_connection_starts_a_session() {
    let mut l = listening();
    for _ in 0..3 {
        assert_eq!(l.step(ListenEvent::Connection), ListenAction::StartSession);
    }
    assert!(!l.is_stopped());
}

#[test]
fn stop_ends_the_loop_cleanly() {
    let mut l = listening();
    assert_eq!(l.step(ListenEvent::StopRequested), ListenAction::Exit(ExitStatus::Clean));
    assert!(l.is_stopped());
    assert_eq!(l.step(ListenEvent::Connection), ListenAction::Refuse);
    assert_eq!(l.step(ListenEvent::StopRequested), ListenAction::Nothing);
    assert_eq!(l.phase, ListenPhase::Stopped(ExitStatus::Clean));
}

#[test]
fn stop_spares_running_sessions() {
    let mut l = listening();
    assert_eq!(l.step(ListenEvent::Connection), ListenAction::StartSession);
    let mut s = Session::new();
    s.step(Event::Launched);
    assert_eq!(l.step(ListenEvent::StopRequested), ListenAction::Exit(ExitStatus::Clean));
    assert_eq!(s.phase, Phase::Running);
    match s.step(Event::FromClient(b"still here".to_vec())) {
        Action::ToChild(b) => assert_eq!(b, b"still here".to_vec()),
        _ => panic!("the session should keep forwarding"),
    }
    assert_eq!(l.step(ListenEvent::Connection), ListenAction::Refuse);
}

#[test]
fn transient_accept_failure_keeps_listening() {
    let mut l = listening();
    assert_eq!(
        l.step(ListenEvent::AcceptFailed { listener_usable: true }),
        ListenAction::Accept
    );
    assert_eq!(l.phase, ListenPhase::Listening);
    assert_eq!(l.step(ListenEvent::Connection), ListenAction::StartSession);
}

#[test]
fn broken_listener_is_fatal() {
    let mut l = listening();
    assert_eq!(
        l.step(ListenEvent::AcceptFailed { listener_usable: false }),
        ListenAction::Exit(ExitStatus::Fatal)
    );
    assert_eq!(l.phase, ListenPhase::Stopped(ExitStatus::Fatal));
}

#[test]
fn bind_failure_is_fatal() {
    let mut l = Listener::new();
    assert_eq!(l.step(ListenEvent::BindFailed), ListenAction::Exit(ExitStatus::Fatal));
    assert!(l.is_stopped());
}

#[test]
fn latch_delivers_once() {
    let mut latch = StopLatch::new();
    assert!(!latch.fired);
    assert!(latch.fire());
    assert!(!latch.fire());
    assert!(!latch.fire());
    assert!(latch.fired);
}
