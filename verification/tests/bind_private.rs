use std::io;

use socket2::SockAddr;
use socket_activation::bind_private::{
    owner_only_mode, uds_bind_private, BindAction, BindProgress, PrivateBind,
};

fn next(progress: BindProgress) -> PrivateBind {
    match progress {
        BindProgress::Next(bind) => bind,
        BindProgress::Finished(outcome) => panic!("{:?}", outcome),
    }
}

fn name(bind: &PrivateBind) -> String {
    match bind.action() {
        BindAction::CreateSocket => String::from("create"),
        BindAction::Restrict { mode } => format!("restrict {:o}", mode),
        BindAction::Bind { .. } => String::from("bind"),
        BindAction::RestrictFile { path, mode } => format!("restrict {} {:o}", path, mode),
        BindAction::SetNonblocking => String::from("unblock"),
        BindAction::Listen { backlog } => format!("listen {}", backlog),
        BindAction::Register => String::from("register"),
    }
}

fn names(path: &str, restrict: bool) -> Vec<String> {
    let mut bind = uds_bind_private(path, restrict);
    let mut names = vec![name(&bind)];
    loop {
        match bind.advance(Ok(())) {
            BindProgress::Next(next) => bind = next,
            BindProgress::Finished(outcome) => {
                assert!(outcome.is_ok());
                return names;
            }
        }
        names.push(name(&bind));
    }
}

fn refused() -> io::Error {
    io::Error::new(io::ErrorKind::PermissionDenied, "refused")
}

#[test]
fn only_the_owner_may_use_a_private_socket() {
    assert_eq!(owner_only_mode(), 0o600);
}

#[test]
fn the_mode_is_set_before_the_socket_is_bound() {
    let expected = ["create", "restrict 600", "bind", "unblock", "listen 1024", "register"];
    assert_eq!(names("/run/a.sock", true), expected);
}

#[test]
fn the_mode_of_the_file_is_set_where_that_of_the_socket_cannot_be() {
    let expected = [
        "create", "bind", "restrict /run/a.sock 600", "unblock", "listen 1024", "register",
    ];
    assert_eq!(names("/run/a.sock", false), expected);
}

#[test]
fn the_address_is_that_of_the_path() {
    for path in ["/run/a.sock", "/run/b.sock", "relative", ""] {
        let bind = next(uds_bind_private(path, false).advance(Ok(())));
        match bind.action() {
            BindAction::Bind { address } => assert!(*address == SockAddr::unix(path).unwrap()),
            _ => panic!("the socket is to be bound"),
        }
    }
}

#[test]
fn different_paths_have_different_addresses() {
    let a = next(uds_bind_private("/run/a.sock", false).advance(Ok(())));
    match a.action() {
        BindAction::Bind { address } => {
            assert!(address.is_unix());
            assert!(*address != SockAddr::unix("/run/b.sock").unwrap());
        }
        _ => panic!("the socket is to be bound"),
    }
}

#[test]
fn short_paths_fit_and_long_ones_do_not() {
    let short = "a".repeat(103);
    next(uds_bind_private(&short, false).advance(Ok(())));
    let long = "a".repeat(1024);
    for restrict in [false, true] {
        let mut bind = uds_bind_private(&long, restrict);
        if restrict {
            bind = next(bind.advance(Ok(())));
        }
        match bind.advance(Ok(())) {
            BindProgress::Finished(Err(e)) => assert_eq!(e.kind(), io::ErrorKind::InvalidInput),
            _ => panic!("the path does not fit"),
        }
    }
}

#[test]
fn the_length_of_a_path_is_counted_in_bytes() {
    let path = "\u{00e9}".repeat(600);
    match uds_bind_private(&path, false).advance(Ok(())) {
        BindProgress::Finished(Err(e)) => assert_eq!(e.kind(), io::ErrorKind::InvalidInput),
        _ => panic!("the path does not fit"),
    }
}

#[test]
fn an_answer_for_the_address_is_followed() {
    let address = SockAddr::unix("/run/given.sock").unwrap();
    let bind = next(uds_bind_private("/run/a.sock", true).addressed(Ok(address.clone())));
    match bind.action() {
        BindAction::Bind { address: given } => assert!(*given == address),
        _ => panic!("the socket is to be bound"),
    }
    match uds_bind_private("/run/a.sock", true).addressed(Err(refused())) {
        BindProgress::Finished(Err(e)) => assert_eq!(e.to_string(), "refused"),
        _ => panic!("there is no address"),
    }
}

#[test]
fn the_first_error_ends_it() {
    for restrict in [false, true] {
        for failing in 0..6 {
            let mut bind = uds_bind_private("/run/a.sock", restrict);
            for _ in 0..failing {
                bind = next(bind.advance(Ok(())));
            }
            match bind.advance(Err(refused())) {
                BindProgress::Finished(Err(e)) => assert_eq!(e.to_string(), "refused"),
                _ => panic!("an operation failed"),
            }
        }
    }
}

#[test]
fn a_socket_whose_mode_cannot_be_set_is_never_bound() {
    let bind = next(uds_bind_private("/run/a.sock", true).advance(Ok(())));
    assert_eq!(name(&bind), "restrict 600");
    match bind.advance(Err(refused())) {
        BindProgress::Finished(outcome) => assert!(outcome.is_err()),
        BindProgress::Next(bind) => panic!("went on to {}", name(&bind)),
    }
}

#[test]
fn a_socket_whose_file_cannot_be_made_private_never_listens() {
    let bind = next(uds_bind_private("/run/a.sock", false).advance(Ok(())));
    let bind = next(bind.advance(Ok(())));
    assert_eq!(name(&bind), "restrict /run/a.sock 600");
    match bind.advance(Err(refused())) {
        BindProgress::Finished(outcome) => assert!(outcome.is_err()),
        BindProgress::Next(bind) => panic!("went on to {}", name(&bind)),
    }
}

#[test]
fn a_ready_listener_was_made_private_before_it_listened() {
    for restrict in [false, true] {
        let names = names("/run/a.sock", restrict);
        let private = names.iter().position(|n| n.starts_with("restrict") && n.ends_with(" 600"));
        let listens = names.iter().position(|n| n.starts_with("listen"));
        assert!(private.unwrap() < listens.unwrap());
    }
}
