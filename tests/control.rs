use challenge_proxy::control::{Control, ControlResult, Controller, HostState, HostStatus};
use challenge_proxy::listener::ExitStatus;

#[test]
fn starts_running() {
    let c = Controller::new();
    assert_eq!(
        c.status,
        HostStatus { state: HostState::Running, accepts_stop: true, exit_code: 0 }
    );
    assert!(!c.latch.fired);
}

#[test]
fn stop_delivers_once_and_reports_pending() {
    let mut c = Controller::new();
    let first = c.handle(Control::Stop);
    assert_eq!(first.result, ControlResult::NoError);
    assert!(first.deliver_stop);
    let pending = HostStatus { state: HostState::StopPending, accepts_stop: true, exit_code: 0 };
    assert_eq!(first.report, Some(pending));
    let second = c.handle(Control::Stop);
    assert_eq!(second.result, ControlResult::NoError);
    assert!(!second.deliver_stop);
    assert_eq!(second.report, Some(pending));
}

#[test]
fn interrogate_has_no_side_effects() {
    let mut c = Controller::new();
    let r = c.handle(Control::Interrogate);
    assert_eq!(r.result, ControlResult::NoError);
    assert!(!r.deliver_stop);
    assert_eq!(r.report, None);
    assert!(!c.latch.fired);
    assert_eq!(c.status.state, HostState::Running);
}

#[test]
fn other_requests_are_declined() {
    let mut c = Controller::new();
    let r = c.handle(Control::Other);
    assert_eq!(r.result, ControlResult::NotImplemented);
    assert!(!r.deliver_stop);
    assert_eq!(r.report, None);
}

#[test]
fn final_status_carries_the_exit_code() {
    let mut c = Controller::new();
    let clean = c.finish(ExitStatus::Clean);
    assert_eq!(clean, HostStatus { state: HostState::Stopped, accepts_stop: true, exit_code: 0 });
    let mut c = Controller::new();
    let fatal = c.finish(ExitStatus::Fatal);
    assert_eq!(fatal, HostStatus { state: HostState::Stopped, accepts_stop: true, exit_code: 1 });
    assert_eq!(c.status, fatal);
}
