//! Answers to the host's lifecycle requests, and the statuses reported to
//! the host while the engine starts, stops and ends.

use vstd::prelude::*;
use crate::listener::{ExitStatus, StopLatch};

verus! {

/// The state reported to the host.
#[derive(Debug, Clone, Copy, PartialEq, Eq, Structural)]
pub enum HostState {
    Running,
    StopPending,
    Stopped,
}

/// A status report for the host.
#[derive(Debug, Clone, Copy, PartialEq, Eq, Structural)]
pub struct HostStatus {
    pub state: HostState,
    /// Whether a stop request is accepted in this state.
    pub accepts_stop: bool,
    /// Zero, or non-zero for a stop caused by a fatal error.
    pub exit_code: u32,
}

/// A request from the host.
#[derive(Debug, Clone, Copy, PartialEq, Eq, Structural)]
pub enum Control {
    Stop,
    /// A health check, answered without side effects.
    Interrogate,
    /// Any request this engine does not handle.
    Other,
}

/// The answer handed back to the host for a request.
#[derive(Debug, Clone, Copy, PartialEq, Eq, Structural)]
pub enum ControlResult {
    NoError,
    NotImplemented,
}

/// What handling a request calls for.
#[derive(Debug, Clone, Copy, PartialEq, Eq, Structural)]
pub struct ControlReply {
    pub result: ControlResult,
    /// Send the stop signal to the accept loop.
    pub deliver_stop: bool,
    /// Report this status to the host.
    pub report: Option<HostStatus>,
}

/// The status reported once the engine is up.
pub open spec fn running_status() -> HostStatus {
    HostStatus { state: HostState::Running, accepts_stop: true, exit_code: 0 }
}

/// The status reported once the accept loop has ended.
pub open spec fn final_status(exit: ExitStatus) -> HostStatus {
    HostStatus {
        state: HostState::Stopped,
        accepts_stop: true,
        exit_code: if exit == ExitStatus::Clean {
            0
        } else {
            1
        },
    }
}

/// The host-facing side of the engine: the stop latch and the last status.
pub struct Controller {
    pub latch: StopLatch,
    pub status: HostStatus,
}

/// The reply to a request, given whether the stop signal was already sent
/// and the status last reported.
pub open spec fn reply_to(fired: bool, status: HostStatus, c: Control) -> ControlReply {
    match c {
        Control::Stop => ControlReply {
            result: ControlResult::NoError,
            deliver_stop: !fired,
            report: Some(HostStatus { state: HostState::StopPending, ..status }),
        },
        Control::Interrogate => ControlReply {
            result: ControlResult::NoError,
            deliver_stop: false,
            report: None,
        },
        Control::Other => ControlReply {
            result: ControlResult::NotImplemented,
            deliver_stop: false,
            report: None,
        },
    }
}

impl Controller {
    /// A controller for an engine that has just started.
    pub fn new() -> (c: Controller)
        ensures
            !c.latch.fired,
            c.status == running_status(),
    {
        Controller {
            latch: StopLatch::new(),
            status: HostStatus { state: HostState::Running, accepts_stop: true, exit_code: 0 },
        }
    }

    /// Handles one request from the host. A stop request sends the stop
    /// signal the first time only and reports a pending stop; a health
    /// check changes nothing; anything else is declined.
    pub fn handle(&mut self, c: Control) -> (r: ControlReply)
        ensures
            r == reply_to(old(self).latch.fired, old(self).status, c),
            final(self).latch.fired == (old(self).latch.fired || c == Control::Stop),
            final(self).status == match r.report {
                Some(s) => s,
                None => old(self).status,
            },
    {
        match c {
            Control::Stop => {
                let deliver = self.latch.fire();
                let pending = HostStatus { state: HostState::StopPending, ..self.status };
                self.status = pending;
                ControlReply {
                    result: ControlResult::NoError,
                    deliver_stop: deliver,
                    report: Some(pending),
                }
            },
            Control::Interrogate => ControlReply {
                result: ControlResult::NoError,
                deliver_stop: false,
                report: None,
            },
            Control::Other => ControlReply {
                result: ControlResult::NotImplemented,
                deliver_stop: false,
                report: None,
            },
        }
    }

    /// Records how the accept loop ended and returns the status to report.
    pub fn finish(&mut self, exit: ExitStatus) -> (s: HostStatus)
        ensures
            s == final_status(exit),
            final(self).status == s,
            final(self).latch == old(self).latch,
    {
        let code: u32 = match exit {
            ExitStatus::Clean => 0,
            ExitStatus::Fatal => 1,
        };
        let s = HostStatus { state: HostState::Stopped, accepts_stop: true, exit_code: code };
        self.status = s;
        s
    }
}

/// The stop signal is one-shot: after any stop request, a further stop
/// request sends nothing, is answered without error and again reports a
/// pending stop.
pub proof fn lemma_stop_once(fired: bool, status: HostStatus)
    ensures
        ({
            let first = reply_to(fired, status, Control::Stop);
            let second = reply_to(true, first.report->Some_0, Control::Stop);
            &&& !second.deliver_stop
            &&& second.result == ControlResult::NoError
            &&& second.report == first.report
        }),
{
}

} // verus!
