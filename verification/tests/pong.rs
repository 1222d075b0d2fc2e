use socket_activation::command::{Commands, Job};
use socket_activation::pong::{
    socket_activation_accepted_pong, socket_activation_pong, socket_activation_unix_pong,
    unix_pong, Pong, PongAction, PongEvent, PongKind, PongOutcome, PongProgress,
};
use socket_activation::relay::RelayAction;

fn name(pong: &Pong) -> String {
    match pong.action() {
        PongAction::AdoptListener { fd } => format!("listener {}", fd),
        PongAction::AdoptConnection { fd } => format!("connection {}", fd),
        PongAction::SetNonblocking => String::from("unblock"),
        PongAction::Register => String::from("register"),
        PongAction::FindSocketFile => String::from("find"),
        PongAction::RemoveFile { path } => format!("remove {}", path),
        PongAction::BindPrivate { path } => format!("bind {}", path),
        PongAction::Forward { relay } => match relay.action() {
            RelayAction::ConnectUnix { path } => format!("forward {}", path),
            _ => panic!("the relay goes to a Unix socket"),
        },
        PongAction::Subscribe => String::from("subscribe"),
        PongAction::Serve => String::from("serve"),
        PongAction::JoinForward => String::from("join"),
    }
}

fn found() -> PongEvent {
    PongEvent::Found { path: String::from("/run/1_2") }
}

/// The event of an operation that succeeds.
fn success(pong: &Pong) -> PongEvent {
    match pong.action() {
        PongAction::FindSocketFile => found(),
        _ => PongEvent::Done,
    }
}

fn next(progress: PongProgress) -> Pong {
    match progress {
        PongProgress::Next(pong) => pong,
        PongProgress::Finished(outcome) => panic!("{:?}", outcome),
    }
}

fn steps(mut pong: Pong, len: usize) -> Pong {
    for _ in 0..len {
        let event = success(&pong);
        pong = next(pong.advance(event));
    }
    pong
}

/// The operations of a server that all succeed, and how it ends.
fn run(mut pong: Pong) -> (Vec<String>, PongOutcome) {
    let mut names = Vec::new();
    loop {
        names.push(name(&pong));
        let event = success(&pong);
        match pong.advance(event) {
            PongProgress::Next(next) => pong = next,
            PongProgress::Finished(outcome) => return (names, outcome),
        }
    }
}

fn failed(pong: Pong) -> PongOutcome {
    match pong.advance(PongEvent::Failed) {
        PongProgress::Next(pong) => panic!("went on to {}", name(&pong)),
        PongProgress::Finished(outcome) => outcome,
    }
}

#[test]
fn a_server_on_an_inherited_listener() {
    let expected = ["listener 3", "unblock", "register", "subscribe", "serve"];
    for pong in [socket_activation_pong(), socket_activation_unix_pong()] {
        assert_eq!(pong.kind(), PongKind::Listener);
        let (names, outcome) = run(pong);
        assert_eq!(names, expected);
        assert_eq!(outcome, PongOutcome::Served);
    }
}

#[test]
fn a_server_for_an_inherited_connection() {
    let expected = [
        "connection 3", "unblock", "register", "find", "remove /run/1_2", "bind /run/1_2",
        "forward /run/1_2", "subscribe", "serve", "join",
    ];
    let pong = socket_activation_accepted_pong();
    assert_eq!(pong.kind(), PongKind::Connection);
    let (names, outcome) = run(pong);
    assert_eq!(names, expected);
    assert_eq!(outcome, PongOutcome::Served);
}

#[test]
fn a_server_at_a_path() {
    let expected = ["remove /run/p.sock", "bind /run/p.sock", "subscribe", "serve"];
    let pong = unix_pong("/run/p.sock");
    assert_eq!(pong.kind(), PongKind::File);
    let (names, outcome) = run(pong);
    assert_eq!(names, expected);
    assert_eq!(outcome, PongOutcome::Served);
}

#[test]
fn a_socket_that_stays_blocking() {
    assert_eq!(failed(steps(socket_activation_pong(), 1)), PongOutcome::NotUnblocked);
    assert_eq!(failed(steps(socket_activation_accepted_pong(), 1)), PongOutcome::NotUnblocked);
}

#[test]
fn a_socket_that_the_runtime_refuses() {
    assert_eq!(failed(steps(socket_activation_unix_pong(), 2)), PongOutcome::NotRegistered);
    assert_eq!(failed(steps(socket_activation_accepted_pong(), 2)), PongOutcome::NotRegistered);
}

#[test]
fn a_path_that_cannot_be_bound() {
    assert_eq!(failed(steps(unix_pong("/run/p.sock"), 1)), PongOutcome::NotBound);
    assert_eq!(failed(steps(socket_activation_accepted_pong(), 5)), PongOutcome::NotBound);
}

#[test]
fn a_file_that_cannot_be_removed_stops_nothing() {
    let pong = next(unix_pong("/run/p.sock").advance(PongEvent::Failed));
    assert_eq!(name(&pong), "bind /run/p.sock");
    let pong = next(steps(socket_activation_accepted_pong(), 4).advance(PongEvent::Failed));
    assert_eq!(name(&pong), "bind /run/1_2");
}

#[test]
fn a_relay_that_breaks_does_not_undo_the_serving() {
    let pong = steps(socket_activation_accepted_pong(), 9);
    assert_eq!(name(&pong), "join");
    assert_eq!(failed(pong), PongOutcome::Served);
}

#[test]
fn events_that_answer_nothing_change_nothing() {
    let pong = next(socket_activation_pong().advance(found()));
    assert_eq!(name(&pong), "listener 3");
    let pong = next(unix_pong("/run/p.sock").advance(found()));
    assert_eq!(name(&pong), "remove /run/p.sock");
    let searching = steps(socket_activation_accepted_pong(), 3);
    let searching = next(searching.advance(PongEvent::Done));
    assert_eq!(name(&searching), "find");
    let serving = next(steps(unix_pong("/run/p.sock"), 3).advance(PongEvent::Failed));
    assert_eq!(name(&serving), "serve");
}

#[test]
fn commands_start_servers() {
    let path = String::from("/run/q.sock");
    let commands = vec![
        (Commands::ActivationPong, "listener 3"),
        (Commands::ActivationPongAccepted, "connection 3"),
        (Commands::ActivationPongUnix, "listener 3"),
        (Commands::UnixPong { socket_file_path: path }, "remove /run/q.sock"),
    ];
    for (command, first) in commands {
        match command.job() {
            Job::Pong(pong) => assert_eq!(name(&pong), first),
            Job::Proxy(_) => panic!("the command starts a server"),
        }
    }
}

#[test]
fn the_inherited_socket_is_taken_over_once() {
    let (names, _) = run(socket_activation_pong());
    assert_eq!(names.iter().filter(|n| n.ends_with(" 3")).count(), 1);
    let (names, _) = run(socket_activation_accepted_pong());
    assert_eq!(names.iter().filter(|n| n.ends_with(" 3")).count(), 1);
    let (names, _) = run(unix_pong("/run/p.sock"));
    assert_eq!(names.iter().filter(|n| n.ends_with(" 3")).count(), 0);
}

#[test]
fn a_path_in_use_is_not_changed() {
    let pong = steps(socket_activation_accepted_pong(), 5);
    let other = PongEvent::Found { path: String::from("/run/other") };
    let pong = next(pong.advance(other));
    assert_eq!(name(&pong), "bind /run/1_2");
}

#[test]
fn a_search_that_fails_ends_the_server() {
    let searching = steps(socket_activation_accepted_pong(), 3);
    assert_eq!(name(&searching), "find");
    assert_eq!(failed(searching), PongOutcome::NoSocketFile);
}
