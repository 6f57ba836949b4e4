//! Whole runs of a session: the phase and the actions that a sequence of
//! events leads to, the bytes that flow each way, and the guarantees that
//! hold over every run.

use vstd::prelude::*;
use crate::session::{next_phase, reaction, ActionView, Ending, EventView, Phase, Stream};

verus! {

/// The phase reached and the actions emitted when `events` arrive, in
/// order, at a session that stands in phase `p`.
pub open spec fn run_from(p: Phase, events: Seq<EventView>) -> (Phase, Seq<ActionView>)
    decreases events.len(),
{
    if events.len() == 0 {
        (p, Seq::empty())
    } else {
        let (q, acts) = run_from(p, events.drop_last());
        (next_phase(q, events.last()), acts.push(reaction(q, events.last())))
    }
}

/// A run from a freshly accepted connection.
pub open spec fn run(events: Seq<EventView>) -> (Phase, Seq<ActionView>) {
    run_from(Phase::Starting, events)
}

/// The bytes the client sent, in order.
pub open spec fn client_sent(events: Seq<EventView>) -> Seq<u8>
    decreases events.len(),
{
    if events.len() == 0 {
        Seq::empty()
    } else {
        client_sent(events.drop_last()) + match events.last() {
            EventView::FromClient(b) => b,
            _ => Seq::empty(),
        }
    }
}

/// The bytes the child wrote on one of its output streams, in order.
pub open spec fn child_wrote(events: Seq<EventView>, s: Stream) -> Seq<u8>
    decreases events.len(),
{
    if events.len() == 0 {
        Seq::empty()
    } else {
        child_wrote(events.drop_last(), s) + match events.last() {
            EventView::FromChild(t, b) => if t == s {
                b
            } else {
                Seq::empty()
            },
            _ => Seq::empty(),
        }
    }
}

/// The bytes written to the child's stdin, in order.
pub open spec fn to_child(acts: Seq<ActionView>) -> Seq<u8>
    decreases acts.len(),
{
    if acts.len() == 0 {
        Seq::empty()
    } else {
        to_child(acts.drop_last()) + match acts.last() {
            ActionView::ToChild(b) => b,
            _ => Seq::empty(),
        }
    }
}

/// The bytes written to the socket, in order, from both output streams.
pub open spec fn to_client(acts: Seq<ActionView>) -> Seq<u8>
    decreases acts.len(),
{
    if acts.len() == 0 {
        Seq::empty()
    } else {
        to_client(acts.drop_last()) + match acts.last() {
            ActionView::ToClient(_, b) => b,
            _ => Seq::empty(),
        }
    }
}

/// The bytes written to the socket that came from one output stream.
pub open spec fn to_client_from(acts: Seq<ActionView>, s: Stream) -> Seq<u8>
    decreases acts.len(),
{
    if acts.len() == 0 {
        Seq::empty()
    } else {
        to_client_from(acts.drop_last(), s) + match acts.last() {
            ActionView::ToClient(t, b) => if t == s {
                b
            } else {
                Seq::empty()
            },
            _ => Seq::empty(),
        }
    }
}

/// How many teardowns a run asked for.
pub open spec fn teardowns(acts: Seq<ActionView>) -> nat
    decreases acts.len(),
{
    if acts.len() == 0 {
        0
    } else {
        teardowns(acts.drop_last()) + if acts.last() is Teardown {
            1nat
        } else {
            0nat
        }
    }
}

/// An event that carries bytes and is not an end of stream.
pub open spec fn is_chunk(e: EventView) -> bool {
    match e {
        EventView::FromClient(b) => b.len() > 0,
        EventView::FromChild(_, b) => b.len() > 0,
        _ => false,
    }
}

/// A run that launched and has since seen only chunks of data: no end of
/// stream, no exit, no failure.
pub open spec fn open_trace(events: Seq<EventView>) -> bool {
    &&& events.len() >= 1
    &&& events[0] == EventView::Launched
    &&& forall|i: int| 1 <= i < events.len() ==> is_chunk(#[trigger] events[i])
}

/// The run's actions grow by one per event.
pub proof fn lemma_run_len(p: Phase, events: Seq<EventView>)
    ensures
        run_from(p, events).1.len() == events.len(),
    decreases events.len(),
{
    if events.len() > 0 {
        lemma_run_len(p, events.drop_last());
    }
}

/// Running a concatenation of events is running the first part, then the
/// second from where the first left off.
pub proof fn lemma_run_append(p: Phase, a: Seq<EventView>, b: Seq<EventView>)
    ensures
        run_from(p, a + b).0 == run_from(run_from(p, a).0, b).0,
        run_from(p, a + b).1 == run_from(p, a).1 + run_from(run_from(p, a).0, b).1,
    decreases b.len(),
{
    if b.len() == 0 {
        assert(a + b =~= a);
        assert(run_from(p, a).1 + Seq::<ActionView>::empty() =~= run_from(p, a).1);
    } else {
        lemma_run_append(p, a, b.drop_last());
        assert((a + b).drop_last() =~= a + b.drop_last());
        assert((a + b).last() == b.last());
        let q = run_from(p, a).0;
        let left = run_from(p, a).1;
        let right = run_from(q, b.drop_last()).1;
        let r = run_from(q, b.drop_last()).0;
        assert((left + right).push(reaction(r, b.last())) =~= left + right.push(
            reaction(r, b.last()),
        ));
    }
}

/// Once closed, a session stays closed and performs no further I/O: every
/// later event is answered with no action at all.
pub proof fn lemma_closed_is_final(end: Ending, events: Seq<EventView>)
    ensures
        run_from(Phase::Closed(end), events).0 == Phase::Closed(end),
        forall|i: int|
            0 <= i < events.len() ==> #[trigger] run_from(Phase::Closed(end), events).1[i]
                == ActionView::Nothing,
    decreases events.len(),
{
    lemma_run_len(Phase::Closed(end), events);
    if events.len() > 0 {
        lemma_closed_is_final(end, events.drop_last());
        let acts = run_from(Phase::Closed(end), events).1;
        let prev = run_from(Phase::Closed(end), events.drop_last()).1;
        assert forall|i: int| 0 <= i < events.len() implies #[trigger] acts[i]
            == ActionView::Nothing by {
            if i < events.len() - 1 {
                assert(acts[i] == prev[i]);
            }
        }
    }
}

/// Every run asks for teardown exactly once if it has closed, and never
/// if it has not: the handles are released and the child reaped on every
/// path to the end, and only once.
pub proof fn lemma_teardown_once(events: Seq<EventView>)
    ensures
        teardowns(run(events).1) == if run(events).0 is Closed {
            1nat
        } else {
            0nat
        },
    decreases events.len(),
{
    if events.len() > 0 {
        lemma_teardown_once(events.drop_last());
        let acts = run(events).1;
        assert(acts.drop_last() =~= run(events.drop_last()).1);
    }
}

/// Byte flow of a run that is still open: the child's stdin has received
/// exactly what the client sent, and the socket has received exactly what
/// the child wrote on each output stream, each stream in its own order.
pub proof fn lemma_open_flow(events: Seq<EventView>)
    requires
        open_trace(events),
    ensures
        run(events).0 == Phase::Running,
        to_child(run(events).1) == client_sent(events),
        to_client_from(run(events).1, Stream::Stdout) == child_wrote(events, Stream::Stdout),
        to_client_from(run(events).1, Stream::Stderr) == child_wrote(events, Stream::Stderr),
    decreases events.len(),
{
    let acts = run(events).1;
    if events.len() == 1 {
        let e0 = events.drop_last();
        assert(e0.len() == 0);
        assert(acts == seq![ActionView::Await]);
        assert(acts.drop_last() =~= Seq::<ActionView>::empty());
        assert(client_sent(e0) == Seq::<u8>::empty());
        assert(client_sent(events) =~= Seq::<u8>::empty());
        assert(to_child(acts.drop_last()) == Seq::<u8>::empty());
        assert(to_child(acts) =~= Seq::<u8>::empty());
        assert(child_wrote(e0, Stream::Stdout) == Seq::<u8>::empty());
        assert(child_wrote(e0, Stream::Stderr) == Seq::<u8>::empty());
        assert(to_client_from(acts.drop_last(), Stream::Stdout) == Seq::<u8>::empty());
        assert(to_client_from(acts.drop_last(), Stream::Stderr) == Seq::<u8>::empty());
        assert(child_wrote(events, Stream::Stdout) =~= Seq::<u8>::empty());
        assert(child_wrote(events, Stream::Stderr) =~= Seq::<u8>::empty());
        assert(to_client_from(acts, Stream::Stdout) =~= Seq::<u8>::empty());
        assert(to_client_from(acts, Stream::Stderr) =~= Seq::<u8>::empty());
    } else {
        let prev = events.drop_last();
        assert(prev[0] == events[0]);
        assert forall|i: int| 1 <= i < prev.len() implies is_chunk(#[trigger] prev[i]) by {
            assert(prev[i] == events[i]);
        }
        lemma_open_flow(prev);
        assert(is_chunk(events[events.len() - 1]));
        assert(acts.drop_last() =~= run(prev).1);
    }
}

/// Sent-to-socket bytes are those of stdout where stderr contributed none.
pub proof fn lemma_stdout_only(acts: Seq<ActionView>)
    requires
        to_client_from(acts, Stream::Stderr).len() == 0,
    ensures
        to_client(acts) == to_client_from(acts, Stream::Stdout),
    decreases acts.len(),
{
    if acts.len() > 0 {
        let prev = acts.drop_last();
        match acts.last() {
            ActionView::ToClient(t, b) => {
                if t == Stream::Stderr {
                    assert(to_client_from(acts, Stream::Stderr) == to_client_from(
                        prev,
                        Stream::Stderr,
                    ) + b);
                    assert(b.len() == 0);
                    assert(to_client_from(prev, Stream::Stderr).len() == 0);
                    lemma_stdout_only(prev);
                    assert(to_client(acts) =~= to_client(prev));
                    assert(to_client_from(acts, Stream::Stdout) =~= to_client_from(
                        prev,
                        Stream::Stdout,
                    ));
                } else {
                    lemma_stdout_only(prev);
                }
            },
            _ => {
                lemma_stdout_only(prev);
                assert(to_client(acts) =~= to_client(prev));
                assert(to_client_from(acts, Stream::Stdout) =~= to_client_from(
                    prev,
                    Stream::Stdout,
                ));
            },
        }
    }
}

/// Echo fidelity: while a session is open, if the program has written on
/// stdout exactly the bytes it was given and nothing on stderr, the client
/// has received back exactly the bytes it sent, byte for byte and in order.
pub proof fn lemma_echo_fidelity(events: Seq<EventView>)
    requires
        open_trace(events),
        child_wrote(events, Stream::Stdout) == to_child(run(events).1),
        child_wrote(events, Stream::Stderr).len() == 0,
    ensures
        to_client(run(events).1) == client_sent(events),
{
    lemma_open_flow(events);
    lemma_stdout_only(run(events).1);
}

/// Per-stream order: whatever else the run holds, the socket has received
/// each output stream's bytes in the order the child wrote them, and every
/// byte written to the socket belongs to one of the two.
pub proof fn lemma_stream_order(events: Seq<EventView>)
    requires
        open_trace(events),
    ensures
        to_client_from(run(events).1, Stream::Stdout) == child_wrote(events, Stream::Stdout),
        to_client_from(run(events).1, Stream::Stderr) == child_wrote(events, Stream::Stderr),
        to_client(run(events).1).len() == child_wrote(events, Stream::Stdout).len()
            + child_wrote(events, Stream::Stderr).len(),
{
    lemma_open_flow(events);
    lemma_client_split(run(events).1);
}

/// The socket's bytes, counted per stream.
pub proof fn lemma_client_split(acts: Seq<ActionView>)
    ensures
        to_client(acts).len() == to_client_from(acts, Stream::Stdout).len() + to_client_from(
            acts,
            Stream::Stderr,
        ).len(),
    decreases acts.len(),
{
    if acts.len() > 0 {
        lemma_client_split(acts.drop_last());
    }
}

/// Clean disconnect: a client that closes its socket ends an open session
/// at once, whatever the child is doing, with a single teardown that reaps
/// the child; nothing afterwards does any I/O.
pub proof fn lemma_clean_disconnect(events: Seq<EventView>, later: Seq<EventView>)
    requires
        open_trace(events),
    ensures
        ({
            let all = events.push(EventView::FromClient(Seq::empty())) + later;
            &&& run(all).0 == Phase::Closed(Ending::ClientDisconnected)
            &&& run(all).1[events.len() as int] == ActionView::Teardown
            &&& teardowns(run(all).1) == 1
            &&& forall|i: int|
                events.len() < i < all.len() ==> #[trigger] run(all).1[i] == ActionView::Nothing
        }),
{
    lemma_closing_event(events, EventView::FromClient(Seq::empty()), later);
}

/// Child-exit propagation: a child that exits, or closes its stdout, ends
/// an open session at once with a single teardown, and whatever the client
/// sends afterwards reaches nobody.
pub proof fn lemma_child_exit(events: Seq<EventView>, code: Option<i32>, later: Seq<EventView>)
    requires
        open_trace(events),
    ensures
        ({
            let all = events.push(EventView::ChildExited(code)) + later;
            &&& run(all).0 == Phase::Closed(Ending::ChildExited(code))
            &&& run(all).1[events.len() as int] == ActionView::Teardown
            &&& teardowns(run(all).1) == 1
            &&& forall|i: int|
                events.len() < i < all.len() ==> #[trigger] run(all).1[i] == ActionView::Nothing
        }),
        ({
            let all = events.push(EventView::FromChild(Stream::Stdout, Seq::empty())) + later;
            &&& run(all).0 == Phase::Closed(Ending::OutputClosed(Stream::Stdout))
            &&& run(all).1[events.len() as int] == ActionView::Teardown
            &&& teardowns(run(all).1) == 1
            &&& forall|i: int|
                events.len() < i < all.len() ==> #[trigger] run(all).1[i] == ActionView::Nothing
        }),
{
    lemma_closing_event(events, EventView::ChildExited(code), later);
    lemma_closing_event(events, EventView::FromChild(Stream::Stdout, Seq::empty()), later);
}

/// A closing event on an open session: the session closes, tears down
/// once, and ignores the rest.
proof fn lemma_closing_event(events: Seq<EventView>, e: EventView, later: Seq<EventView>)
    requires
        open_trace(events),
        next_phase(Phase::Running, e) is Closed,
    ensures
        ({
            let all = events.push(e) + later;
            &&& run(all).0 == next_phase(Phase::Running, e)
            &&& run(all).1[events.len() as int] == reaction(Phase::Running, e)
            &&& teardowns(run(all).1) == 1
            &&& forall|i: int|
                events.len() < i < all.len() ==> #[trigger] run(all).1[i] == ActionView::Nothing
        }),
{
    let first = events.push(e);
    let all = first + later;
    lemma_open_flow(events);
    assert(first.drop_last() =~= events);
    let closed = next_phase(Phase::Running, e);
    let end = closed->Closed_0;
    assert(run(first).0 == closed);
    lemma_run_append(Phase::Starting, first, later);
    lemma_closed_is_final(end, later);
    lemma_run_len(Phase::Starting, first);
    lemma_run_len(Phase::Starting, events);
    lemma_run_len(closed, later);
    assert(run(first).1[events.len() as int] == reaction(Phase::Running, e));
    lemma_teardown_once(all);
    assert forall|i: int| events.len() < i < all.len() implies #[trigger] run(all).1[i]
        == ActionView::Nothing by {
        assert(run(all).1[i] == run_from(closed, later).1[i - first.len()]);
    }
}

} // verus!
