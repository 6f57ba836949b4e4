use challenge_proxy::session::{Action, Ending, Event, Fault, Phase, Session, Stream};

fn launched() -> Session {
    let mut s = Session::new();
    assert!(matches!(s.step(Event::Launched), Action::Await));
    assert_eq!(s.phase, Phase::Running);
    s
}

fn forwarded_to_child(a: Action) -> Vec<u8> {
    match a {
        Action::ToChild(b) => b,
        _ => panic!("expected bytes for the child"),
    }
}

fn forwarded_to_client(a: Action, from: Stream) -> Vec<u8> {
    match a {
        Action::ToClient(s, b) if s == from => b,
        _ => panic!("expected bytes for the client"),
    }
}

#[test]
fn new_session_is_starting() {
    let s = Session::new();
    assert_eq!(s.phase, Phase::Starting);
    assert!(!s.is_closed());
}

#[test]
fn echo_returns_exactly_what_was_sent() {
    let mut s = launched();
    let sent: Vec<Vec<u8>> = vec![b"hello ".to_vec(), vec![0, 255, 10], b"world\n".to_vec()];
    let mut to_child = Vec::new();
    let mut to_client = Vec::new();
    for chunk in &sent {
        to_child.extend(forwarded_to_child(s.step(Event::FromClient(chunk.clone()))));
        // the program echoes each chunk it was given
        let echoed = to_child[to_child.len() - chunk.len()..].to_vec();
        to_client.extend(forwarded_to_client(
            s.step(Event::FromChild(Stream::Stdout, echoed)),
            Stream::Stdout,
        ));
    }
    let all: Vec<u8> = sent.concat();
    assert_eq!(to_child, all);
    assert_eq!(to_client, all);
    assert_eq!(s.phase, Phase::Running);
}

#[test]
fn client_disconnect_closes_and_tears_down() {
    let mut s = launched();
    assert!(matches!(s.step(Event::FromClient(Vec::new())), Action::Teardown));
    assert_eq!(s.phase, Phase::Closed(Ending::ClientDisconnected));
    assert!(s.is_closed());
    // the child may still be talking: nothing is forwarded any more
    assert!(matches!(s.step(Event::FromChild(Stream::Stdout, b"late".to_vec())), Action::Nothing));
    assert!(matches!(s.step(Event::ChildExited(Some(0))), Action::Nothing));
    assert_eq!(s.phase, Phase::Closed(Ending::ClientDisconnected));
}

#[test]
fn child_exit_closes_while_client_writes() {
    let mut s = launched();
    assert!(matches!(s.step(Event::ChildExited(Some(3))), Action::Teardown));
    assert_eq!(s.phase, Phase::Closed(Ending::ChildExited(Some(3))));
    assert!(matches!(s.step(Event::FromClient(b"more".to_vec())), Action::Nothing));
    assert!(matches!(s.step(Event::FromClient(b"input".to_vec())), Action::Nothing));
}

#[test]
fn end_of_child_output_closes() {
    let mut s = launched();
    assert!(matches!(s.step(Event::FromChild(Stream::Stdout, Vec::new())), Action::Teardown));
    assert_eq!(s.phase, Phase::Closed(Ending::OutputClosed(Stream::Stdout)));
    let mut s = launched();
    assert!(matches!(s.step(Event::FromChild(Stream::Stderr, Vec::new())), Action::Teardown));
    assert_eq!(s.phase, Phase::Closed(Ending::OutputClosed(Stream::Stderr)));
}

#[test]
fn launch_failures_close_without_running() {
    for f in [Fault::Locate, Fault::Spawn] {
        let mut s = Session::new();
        assert!(matches!(s.step(Event::Fault(f)), Action::Teardown));
        assert_eq!(s.phase, Phase::Closed(Ending::Failed(f)));
        assert!(matches!(s.step(Event::FromClient(b"x".to_vec())), Action::Nothing));
    }
}

#[test]
fn data_before_launch_is_ignored() {
    let mut s = Session::new();
    assert!(matches!(s.step(Event::FromClient(b"early".to_vec())), Action::Nothing));
    assert_eq!(s.phase, Phase::Starting);
}

#[test]
fn io_faults_close_the_session() {
    let faults = [
        Fault::SocketRead,
        Fault::SocketWrite,
        Fault::StdinWrite,
        Fault::StdoutRead,
        Fault::StderrRead,
        Fault::Wait,
    ];
    for f in faults {
        let mut s = launched();
        assert!(matches!(s.step(Event::Fault(f)), Action::Teardown));
        assert_eq!(s.phase, Phase::Closed(Ending::Failed(f)));
    }
}

#[test]
fn teardown_comes_exactly_once() {
    let events = vec![
        Event::Launched,
        Event::FromClient(b"a".to_vec()),
        Event::FromChild(Stream::Stderr, b"warn".to_vec()),
        Event::FromChild(Stream::Stdout, Vec::new()),
        Event::ChildExited(Some(0)),
        Event::FromClient(Vec::new()),
        Event::Fault(Fault::SocketWrite),
    ];
    let mut s = Session::new();
    let mut teardowns = 0;
    for e in events {
        if matches!(s.step(e), Action::Teardown) {
            teardowns += 1;
        }
    }
    assert_eq!(teardowns, 1);
    assert_eq!(s.phase, Phase::Closed(Ending::OutputClosed(Stream::Stdout)));
}

#[test]
fn streams_keep_their_own_order() {
    let mut s = launched();
    let chunks: Vec<(Stream, &[u8])> = vec![
        (Stream::Stdout, b"o1"),
        (Stream::Stderr, b"e1"),
        (Stream::Stderr, b"e2"),
        (Stream::Stdout, b"o2"),
        (Stream::Stdout, b"o3"),
        (Stream::Stderr, b"e3"),
    ];
    let mut out = Vec::new();
    let mut err = Vec::new();
    let mut socket = Vec::new();
    for (stream, bytes) in chunks {
        match s.step(Event::FromChild(stream, bytes.to_vec())) {
            Action::ToClient(Stream::Stdout, b) => {
                socket.extend(b.clone());
                out.extend(b);
            }
            Action::ToClient(Stream::Stderr, b) => {
                socket.extend(b.clone());
                err.extend(b);
            }
            _ => panic!("expected bytes for the client"),
        }
    }
    assert_eq!(out, b"o1o2o3".to_vec());
    assert_eq!(err, b"e1e2e3".to_vec());
    assert_eq!(socket.len(), 12);
}

#[test]
fn ping_is_answered_then_disconnect_reaps() {
    let mut s = launched();
    let given = forwarded_to_child(s.step(Event::FromClient(b"ping\n".to_vec())));
    assert_eq!(given, b"ping\n".to_vec());
    // the program upper-cases each line it reads
    let answer = given.to_ascii_uppercase();
    let back = forwarded_to_client(s.step(Event::FromChild(Stream::Stdout, answer)), Stream::Stdout);
    assert_eq!(back, b"PING\n".to_vec());
    assert!(matches!(s.step(Event::FromClient(Vec::new())), Action::Teardown));
    assert!(s.is_closed());
}
