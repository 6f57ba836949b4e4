//! The per-connection state machine: one accepted socket bridged to one
//! spawned program. The caller waits on the four event sources (socket,
//! child stdout, child stderr, child exit), hands each outcome to
//! [`Session::step`], and performs the action it gets back.

use vstd::prelude::*;

verus! {

/// The most bytes taken from one source in a single read. Not visible on
/// the wire: chunks are forwarded without framing.
pub const CHUNK_SIZE: usize = 4096;

/// One of the child's two output streams.
#[derive(Debug, Clone, Copy, PartialEq, Eq, Structural)]
pub enum Stream {
    Stdout,
    Stderr,
}

/// A failure that ends a session.
#[derive(Debug, Clone, Copy, PartialEq, Eq, Structural)]
pub enum Fault {
    /// No runnable artifact could be chosen.
    Locate,
    /// The program could not be started.
    Spawn,
    SocketRead,
    SocketWrite,
    StdinWrite,
    StdoutRead,
    StderrRead,
    /// Waiting for the child's exit failed.
    Wait,
}

/// How a session came to its end.
#[derive(Debug, Clone, Copy, PartialEq, Eq, Structural)]
pub enum Ending {
    /// The client closed its side of the connection.
    ClientDisconnected,
    /// The child closed one of its output streams.
    OutputClosed(Stream),
    /// The child exited, with its exit code where it has one.
    ChildExited(Option<i32>),
    /// An I/O or launch failure.
    Failed(Fault),
}

/// Where a session stands.
#[derive(Debug, Clone, Copy, PartialEq, Eq, Structural)]
pub enum Phase {
    /// The program is being located and spawned.
    Starting,
    /// Bytes are being bridged.
    Running,
    /// Terminal: all handles are released and the child is reaped.
    Closed(Ending),
}

/// What the caller observed.
pub enum Event {
    /// The program was located and spawned with piped streams.
    Launched,
    /// A read from the socket; an empty chunk is a clean disconnect.
    FromClient(Vec<u8>),
    /// A read from one of the child's outputs; an empty chunk is end of stream.
    FromChild(Stream, Vec<u8>),
    /// The child has exited.
    ChildExited(Option<i32>),
    /// A launch step or an I/O operation failed.
    Fault(Fault),
}

/// What the caller must do next.
pub enum Action {
    /// Nothing to forward: keep waiting on the event sources.
    Await,
    /// Write these bytes, all of them, to the child's stdin.
    ToChild(Vec<u8>),
    /// Write these bytes, all of them, to the socket.
    ToClient(Stream, Vec<u8>),
    /// Release the socket and the three pipes, and reap the child if one
    /// was spawned (killing it first if it is still running).
    Teardown,
    /// The event has no effect in this phase.
    Nothing,
}

/// The mathematical value of an [`Event`].
pub ghost enum EventView {
    Launched,
    FromClient(Seq<u8>),
    FromChild(Stream, Seq<u8>),
    ChildExited(Option<i32>),
    Fault(Fault),
}

/// The mathematical value of an [`Action`].
pub ghost enum ActionView {
    Await,
    ToChild(Seq<u8>),
    ToClient(Stream, Seq<u8>),
    Teardown,
    Nothing,
}

impl View for Event {
    type V = EventView;

    open spec fn view(&self) -> EventView {
        match self {
            Event::Launched => EventView::Launched,
            Event::FromClient(b) => EventView::FromClient(b@),
            Event::FromChild(s, b) => EventView::FromChild(*s, b@),
            Event::ChildExited(c) => EventView::ChildExited(*c),
            Event::Fault(f) => EventView::Fault(*f),
        }
    }
}

impl View for Action {
    type V = ActionView;

    open spec fn view(&self) -> ActionView {
        match self {
            Action::Await => ActionView::Await,
            Action::ToChild(b) => ActionView::ToChild(b@),
            Action::ToClient(s, b) => ActionView::ToClient(*s, b@),
            Action::Teardown => ActionView::Teardown,
            Action::Nothing => ActionView::Nothing,
        }
    }
}

/// The phase after an event.
pub open spec fn next_phase(p: Phase, e: EventView) -> Phase {
    match p {
        Phase::Starting => match e {
            EventView::Launched => Phase::Running,
            EventView::Fault(f) => Phase::Closed(Ending::Failed(f)),
            _ => Phase::Starting,
        },
        Phase::Running => match e {
            EventView::Launched => Phase::Running,
            EventView::FromClient(b) => if b.len() == 0 {
                Phase::Closed(Ending::ClientDisconnected)
            } else {
                Phase::Running
            },
            EventView::FromChild(s, b) => if b.len() == 0 {
                Phase::Closed(Ending::OutputClosed(s))
            } else {
                Phase::Running
            },
            EventView::ChildExited(c) => Phase::Closed(Ending::ChildExited(c)),
            EventView::Fault(f) => Phase::Closed(Ending::Failed(f)),
        },
        Phase::Closed(end) => Phase::Closed(end),
    }
}

/// The action that an event calls for.
pub open spec fn reaction(p: Phase, e: EventView) -> ActionView {
    match p {
        Phase::Starting => match e {
            EventView::Launched => ActionView::Await,
            EventView::Fault(_) => ActionView::Teardown,
            _ => ActionView::Nothing,
        },
        Phase::Running => match e {
            EventView::Launched => ActionView::Nothing,
            EventView::FromClient(b) => if b.len() == 0 {
                ActionView::Teardown
            } else {
                ActionView::ToChild(b)
            },
            EventView::FromChild(s, b) => if b.len() == 0 {
                ActionView::Teardown
            } else {
                ActionView::ToClient(s, b)
            },
            EventView::ChildExited(_) => ActionView::Teardown,
            EventView::Fault(_) => ActionView::Teardown,
        },
        Phase::Closed(_) => ActionView::Nothing,
    }
}

/// One bridging instance, owned by the task that serves its connection.
pub struct Session {
    pub phase: Phase,
}

impl Session {
    /// A session that has accepted its connection and has yet to launch.
    pub fn new() -> (s: Session)
        ensures
            s.phase == Phase::Starting,
    {
        Session { phase: Phase::Starting }
    }

    /// Whether the session has reached its terminal phase.
    pub fn is_closed(&self) -> (r: bool)
        ensures
            r == self.phase is Closed,
    {
        match self.phase {
            Phase::Closed(_) => true,
            _ => false,
        }
    }

    /// Takes one observed event and answers with the action to perform.
    pub fn step(&mut self, event: Event) -> (r: Action)
        ensures
            final(self).phase == next_phase(old(self).phase, event@),
            r@ == reaction(old(self).phase, event@),
    {
        match self.phase {
            Phase::Starting => match event {
                Event::Launched => {
                    self.phase = Phase::Running;
                    Action::Await
                },
                Event::Fault(f) => {
                    self.phase = Phase::Closed(Ending::Failed(f));
                    Action::Teardown
                },
                _ => Action::Nothing,
            },
            Phase::Running => match event {
                Event::Launched => Action::Nothing,
                Event::FromClient(bytes) => {
                    if bytes.len() == 0 {
                        self.phase = Phase::Closed(Ending::ClientDisconnected);
                        Action::Teardown
                    } else {
                        Action::ToChild(bytes)
                    }
                },
                Event::FromChild(stream, bytes) => {
                    if bytes.len() == 0 {
                        self.phase = Phase::Closed(Ending::OutputClosed(stream));
                        Action::Teardown
                    } else {
                        Action::ToClient(stream, bytes)
                    }
                },
                Event::ChildExited(code) => {
                    self.phase = Phase::Closed(Ending::ChildExited(code));
                    Action::Teardown
                },
                Event::Fault(f) => {
                    self.phase = Phase::Closed(Ending::Failed(f));
                    Action::Teardown
                },
            },
            Phase::Closed(_) => Action::Nothing,
        }
    }
}

} // verus!
