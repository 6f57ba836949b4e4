//! The accept loop's decisions, and the one-shot signal that stops it.
//! The caller binds, waits on "new connection" and "stop requested",
//! reports what happened to [`Listener::step`], and does what it is told.

use vstd::prelude::*;
use crate::session::{next_phase, EventView, Phase};
use crate::trace::run_from;

verus! {

/// How the accept loop ended.
#[derive(Debug, Clone, Copy, PartialEq, Eq, Structural)]
pub enum ExitStatus {
    /// Stopped on request.
    Clean,
    /// The listening socket could not be bound or became unusable.
    Fatal,
}

/// Where the accept loop stands.
#[derive(Debug, Clone, Copy, PartialEq, Eq, Structural)]
pub enum ListenPhase {
    Binding,
    Listening,
    Stopped(ExitStatus),
}

/// What the accept loop observed.
#[derive(Debug, Clone, Copy, PartialEq, Eq, Structural)]
pub enum ListenEvent {
    /// The listening socket is bound.
    Bound,
    /// Binding the listening socket failed.
    BindFailed,
    /// A connection was accepted.
    Connection,
    /// Accepting failed; `listener_usable` tells whether the listening
    /// socket itself is still fit to accept.
    AcceptFailed { listener_usable: bool },
    /// The stop signal arrived.
    StopRequested,
}

/// What the accept loop must do next.
#[derive(Debug, Clone, Copy, PartialEq, Eq, Structural)]
pub enum ListenAction {
    /// Go back to waiting for a connection or the stop signal.
    Accept,
    /// Start an independent session for the accepted connection, without
    /// waiting for it, then go back to waiting.
    StartSession,
    /// Drop the accepted connection: no new sessions are started.
    Refuse,
    /// Leave the loop and report this status.
    Exit(ExitStatus),
    /// The event has no effect in this phase.
    Nothing,
}

/// The phase after an event.
pub open spec fn listen_next(p: ListenPhase, e: ListenEvent) -> ListenPhase {
    match p {
        ListenPhase::Binding => match e {
            ListenEvent::Bound => ListenPhase::Listening,
            ListenEvent::BindFailed => ListenPhase::Stopped(ExitStatus::Fatal),
            ListenEvent::StopRequested => ListenPhase::Stopped(ExitStatus::Clean),
            _ => ListenPhase::Binding,
        },
        ListenPhase::Listening => match e {
            ListenEvent::AcceptFailed { listener_usable } => if listener_usable {
                ListenPhase::Listening
            } else {
                ListenPhase::Stopped(ExitStatus::Fatal)
            },
            ListenEvent::StopRequested => ListenPhase::Stopped(ExitStatus::Clean),
            _ => ListenPhase::Listening,
        },
        ListenPhase::Stopped(s) => ListenPhase::Stopped(s),
    }
}

/// The action that an event calls for.
pub open spec fn listen_reaction(p: ListenPhase, e: ListenEvent) -> ListenAction {
    match p {
        ListenPhase::Binding => match e {
            ListenEvent::Bound => ListenAction::Accept,
            ListenEvent::BindFailed => ListenAction::Exit(ExitStatus::Fatal),
            ListenEvent::StopRequested => ListenAction::Exit(ExitStatus::Clean),
            _ => ListenAction::Nothing,
        },
        ListenPhase::Listening => match e {
            ListenEvent::Connection => ListenAction::StartSession,
            ListenEvent::AcceptFailed { listener_usable } => if listener_usable {
                ListenAction::Accept
            } else {
                ListenAction::Exit(ExitStatus::Fatal)
            },
            ListenEvent::StopRequested => ListenAction::Exit(ExitStatus::Clean),
            _ => ListenAction::Nothing,
        },
        ListenPhase::Stopped(_) => match e {
            ListenEvent::Connection => ListenAction::Refuse,
            _ => ListenAction::Nothing,
        },
    }
}

/// The accept loop's state.
pub struct Listener {
    pub phase: ListenPhase,
}

impl Listener {
    /// A loop that has yet to bind its socket.
    pub fn new() -> (l: Listener)
        ensures
            l.phase == ListenPhase::Binding,
    {
        Listener { phase: ListenPhase::Binding }
    }

    /// Whether the loop has left for good.
    pub fn is_stopped(&self) -> (r: bool)
        ensures
            r == self.phase is Stopped,
    {
        match self.phase {
            ListenPhase::Stopped(_) => true,
            _ => false,
        }
    }

    /// Takes one observed event and answers with the action to perform.
    pub fn step(&mut self, event: ListenEvent) -> (r: ListenAction)
        ensures
            final(self).phase == listen_next(old(self).phase, event),
            r == listen_reaction(old(self).phase, event),
    {
        match self.phase {
            ListenPhase::Binding => match event {
                ListenEvent::Bound => {
                    self.phase = ListenPhase::Listening;
                    ListenAction::Accept
                },
                ListenEvent::BindFailed => {
                    self.phase = ListenPhase::Stopped(ExitStatus::Fatal);
                    ListenAction::Exit(ExitStatus::Fatal)
                },
                ListenEvent::StopRequested => {
                    self.phase = ListenPhase::Stopped(ExitStatus::Clean);
                    ListenAction::Exit(ExitStatus::Clean)
                },
                _ => ListenAction::Nothing,
            },
            ListenPhase::Listening => match event {
                ListenEvent::Connection => ListenAction::StartSession,
                ListenEvent::AcceptFailed { listener_usable } => {
                    if listener_usable {
                        ListenAction::Accept
                    } else {
                        self.phase = ListenPhase::Stopped(ExitStatus::Fatal);
                        ListenAction::Exit(ExitStatus::Fatal)
                    }
                },
                ListenEvent::StopRequested => {
                    self.phase = ListenPhase::Stopped(ExitStatus::Clean);
                    ListenAction::Exit(ExitStatus::Clean)
                },
                _ => ListenAction::Nothing,
            },
            ListenPhase::Stopped(_) => match event {
                ListenEvent::Connection => ListenAction::Refuse,
                _ => ListenAction::Nothing,
            },
        }
    }
}

/// The one-shot stop signal's sending side: the first firing delivers,
/// every later firing is a no-op.
pub struct StopLatch {
    pub fired: bool,
}

impl StopLatch {
    /// A latch that has not fired.
    pub fn new() -> (l: StopLatch)
        ensures
            !l.fired,
    {
        StopLatch { fired: false }
    }

    /// Fires the latch; true when this firing is the one to deliver.
    pub fn fire(&mut self) -> (deliver: bool)
        ensures
            deliver == !old(self).fired,
            final(self).fired,
    {
        let deliver = !self.fired;
        self.fired = true;
        deliver
    }
}

/// The whole engine as one value: the accept loop and every session it
/// has started, in the order they were started.
pub ghost struct EngineView {
    pub listener: ListenPhase,
    pub sessions: Seq<Phase>,
}

/// An event of the engine: one for the accept loop, or one for the
/// session of the given index.
pub ghost enum EngineEvent {
    Listener(ListenEvent),
    Session(int, EventView),
}

/// The engine after one event: the accept loop adds a session when it
/// starts one; a session's event moves that session alone.
pub open spec fn engine_step(en: EngineView, ev: EngineEvent) -> EngineView {
    match ev {
        EngineEvent::Listener(e) => EngineView {
            listener: listen_next(en.listener, e),
            sessions: if listen_reaction(en.listener, e) is StartSession {
                en.sessions.push(Phase::Starting)
            } else {
                en.sessions
            },
        },
        EngineEvent::Session(i, e) => if 0 <= i < en.sessions.len() {
            EngineView { listener: en.listener, sessions: en.sessions.update(i, next_phase(en.sessions[i], e)) }
        } else {
            en
        },
    }
}

/// The engine after a sequence of events.
pub open spec fn engine_run(en: EngineView, evs: Seq<EngineEvent>) -> EngineView
    decreases evs.len(),
{
    if evs.len() == 0 {
        en
    } else {
        engine_step(engine_run(en, evs.drop_last()), evs.last())
    }
}

/// The events addressed to session `i`, in order.
pub open spec fn events_of(evs: Seq<EngineEvent>, i: int) -> Seq<EventView>
    decreases evs.len(),
{
    if evs.len() == 0 {
        Seq::empty()
    } else {
        let prev = events_of(evs.drop_last(), i);
        match evs.last() {
            EngineEvent::Session(j, e) => if j == i {
                prev.push(e)
            } else {
                prev
            },
            _ => prev,
        }
    }
}

/// Shutdown spares in-flight sessions: the stop signal closes the accept
/// loop cleanly and touches no session. From then on no new session is
/// started, and each session already started runs exactly as its own
/// events take it, as if no stop had come.
pub proof fn lemma_stop_spares_sessions(en: EngineView, later: Seq<EngineEvent>)
    requires
        en.listener == ListenPhase::Listening,
    ensures
        engine_step(en, EngineEvent::Listener(ListenEvent::StopRequested)) == (EngineView {
            listener: ListenPhase::Stopped(ExitStatus::Clean),
            sessions: en.sessions,
        }),
        ({
            let after = engine_run(
                engine_step(en, EngineEvent::Listener(ListenEvent::StopRequested)),
                later,
            );
            &&& after.listener == ListenPhase::Stopped(ExitStatus::Clean)
            &&& after.sessions.len() == en.sessions.len()
            &&& forall|i: int|
                0 <= i < en.sessions.len() ==> #[trigger] after.sessions[i] == run_from(
                    en.sessions[i],
                    events_of(later, i),
                ).0
        }),
{
    let stopped = EngineView {
        listener: ListenPhase::Stopped(ExitStatus::Clean),
        sessions: en.sessions,
    };
    lemma_stopped_run(stopped, later);
}

/// After the stop, the engine's sessions follow their own events alone.
proof fn lemma_stopped_run(en: EngineView, later: Seq<EngineEvent>)
    requires
        en.listener == ListenPhase::Stopped(ExitStatus::Clean),
    ensures
        ({
            let after = engine_run(en, later);
            &&& after.listener == ListenPhase::Stopped(ExitStatus::Clean)
            &&& after.sessions.len() == en.sessions.len()
            &&& forall|i: int|
                0 <= i < en.sessions.len() ==> #[trigger] after.sessions[i] == run_from(
                    en.sessions[i],
                    events_of(later, i),
                ).0
        }),
    decreases later.len(),
{
    if later.len() > 0 {
        let prev = later.drop_last();
        lemma_stopped_run(en, prev);
        let mid = engine_run(en, prev);
        let after = engine_run(en, later);
        assert forall|i: int| 0 <= i < en.sessions.len() implies #[trigger] after.sessions[i]
            == run_from(en.sessions[i], events_of(later, i)).0 by {
            let own = events_of(later, i);
            match later.last() {
                EngineEvent::Session(j, e) => {
                    if j == i {
                        assert(own.drop_last() =~= events_of(prev, i));
                        assert(own.last() == e);
                    } else {
                        assert(own == events_of(prev, i));
                    }
                },
                EngineEvent::Listener(_) => {
                    assert(own == events_of(prev, i));
                },
            }
            assert(mid.sessions[i] == run_from(en.sessions[i], events_of(prev, i)).0);
        }
    }
}

} // verus!
