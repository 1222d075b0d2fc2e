use std::io;

use socket_activation::cancel::Cancel;
use socket_activation::command::{Commands, Job};
use socket_activation::helper::PublicError;
use socket_activation::proxy::{
    socket_activation_proxy, tcp_proxy, unix_proxy, Proxy, ProxyAction, ProxyEvent, ProxyProgress,
};
use socket_activation::relay::{Relay, RelayAction, RelayProgress, Target};

fn relay_name(action: RelayAction<'_>) -> String {
    match action {
        RelayAction::ConnectUnix { path } => format!("connect {}", path),
        RelayAction::ConnectTcp { url } => format!("connect {}", url),
        RelayAction::Copy => String::from("copy"),
    }
}

fn name(proxy: &Proxy) -> String {
    match proxy.action() {
        ProxyAction::Adopt { fd } => format!("adopt {}", fd),
        ProxyAction::BindTcp { host, port } => format!("bind {} {}", host, port),
        ProxyAction::BindUnix { path } => format!("bind {}", path),
        ProxyAction::Subscribe => String::from("subscribe"),
        ProxyAction::SetNonblocking => String::from("unblock"),
        ProxyAction::Register => String::from("register"),
        ProxyAction::Accept => String::from("accept"),
        ProxyAction::Relay(action) => relay_name(action),
    }
}

fn next(progress: ProxyProgress) -> Proxy {
    match progress {
        ProxyProgress::Next(proxy) => proxy,
        ProxyProgress::Finished(outcome) => panic!("{:?}", outcome),
    }
}

/// The operations of a proxy that all succeed.
fn names(mut proxy: Proxy, len: usize) -> Vec<String> {
    let mut names = Vec::new();
    for _ in 0..len {
        names.push(name(&proxy));
        proxy = next(proxy.advance(ProxyEvent::Done));
    }
    names
}

fn steps(mut proxy: Proxy, len: usize) -> Proxy {
    for _ in 0..len {
        proxy = next(proxy.advance(ProxyEvent::Done));
    }
    proxy
}

fn proxies() -> Vec<Proxy> {
    vec![
        socket_activation_proxy("/run/a.sock"),
        tcp_proxy("localhost", 8080, "/run/a.sock"),
        unix_proxy("/run/a.sock", "localhost", 8080),
    ]
}

#[test]
fn an_activation_proxy_in_order() {
    let expected = [
        "adopt 3", "subscribe", "unblock", "register", "accept", "connect /run/a.sock", "copy",
        "accept", "connect /run/a.sock", "copy", "accept",
    ];
    assert_eq!(names(socket_activation_proxy("/run/a.sock"), 11), expected);
}

#[test]
fn a_tcp_proxy_in_order() {
    let expected = [
        "subscribe", "bind localhost 8080", "unblock", "register", "accept",
        "connect /run/a.sock", "copy", "accept", "connect /run/a.sock", "copy", "accept",
    ];
    assert_eq!(names(tcp_proxy("localhost", 8080, "/run/a.sock"), 11), expected);
}

#[test]
fn a_unix_proxy_in_order() {
    let expected = [
        "bind /run/a.sock", "unblock", "register", "subscribe", "accept",
        "connect localhost:8080", "copy", "accept", "connect localhost:8080", "copy", "accept",
    ];
    assert_eq!(names(unix_proxy("/run/a.sock", "localhost", 8080), 11), expected);
}

fn ends_well(progress: ProxyProgress) {
    match progress {
        ProxyProgress::Finished(outcome) => assert!(outcome.is_ok()),
        ProxyProgress::Next(proxy) => panic!("went on to {}", name(&proxy)),
    }
}

#[test]
fn a_shutdown_ends_a_proxy_that_waits() {
    for cancel in [Cancel::Told, Cancel::Closed, Cancel::Lagged] {
        for proxy in proxies() {
            let proxy = steps(proxy, 4);
            assert_eq!(name(&proxy), "accept");
            ends_well(proxy.advance(ProxyEvent::Shutdown(cancel)));
        }
    }
}

#[test]
fn a_shutdown_lets_a_busy_proxy_go_on() {
    for len in [0, 1, 2, 3, 5, 6] {
        for proxy in proxies() {
            let proxy = steps(proxy, len);
            let before = name(&proxy);
            let proxy = next(proxy.advance(ProxyEvent::Shutdown(Cancel::Told)));
            assert_eq!(name(&proxy), before);
        }
    }
}

#[test]
fn a_shutdown_during_a_relay_ends_the_proxy_after_it() {
    for proxy in proxies() {
        let proxy = steps(proxy, 5);
        let proxy = next(proxy.advance(ProxyEvent::Shutdown(Cancel::Told)));
        assert!(name(&proxy).starts_with("connect "));
        let proxy = next(proxy.advance(ProxyEvent::Done));
        assert_eq!(name(&proxy), "copy");
        ends_well(proxy.advance(ProxyEvent::Done));
    }
    for proxy in proxies() {
        let proxy = steps(proxy, 6);
        let proxy = next(proxy.advance(ProxyEvent::Shutdown(Cancel::Told)));
        ends_well(proxy.advance(ProxyEvent::Done));
    }
}

#[test]
fn a_shutdown_during_the_setup_counts_once_the_proxy_has_subscribed() {
    // How many operations come before each proxy has subscribed.
    let subscribed = [2, 1, 4];
    for len in 0..4 {
        for (proxy, subscribed) in proxies().into_iter().zip(subscribed) {
            let proxy = steps(proxy, len);
            let proxy = next(proxy.advance(ProxyEvent::Shutdown(Cancel::Told)));
            let proxy = steps(proxy, 3 - len);
            match proxy.advance(ProxyEvent::Done) {
                ProxyProgress::Finished(outcome) => {
                    assert!(outcome.is_ok());
                    assert!(len >= subscribed);
                }
                ProxyProgress::Next(proxy) => {
                    assert_eq!(name(&proxy), "accept");
                    assert!(len < subscribed);
                }
            }
        }
    }
}

#[test]
fn a_failure_counts_more_than_a_pending_shutdown() {
    let proxy = steps(tcp_proxy("localhost", 8080, "/run/a.sock"), 6);
    let proxy = next(proxy.advance(ProxyEvent::Shutdown(Cancel::Told)));
    let error = io::Error::new(io::ErrorKind::Other, "broken");
    match proxy.advance(ProxyEvent::Failed(error)) {
        ProxyProgress::Finished(Err(e)) => assert_eq!(e.message(), "IOError: broken"),
        _ => panic!("an operation failed"),
    }
}

#[test]
fn every_failure_ends_a_proxy_with_its_error() {
    for len in 0..8 {
        for proxy in proxies() {
            let error = io::Error::new(io::ErrorKind::Other, "broken");
            match steps(proxy, len).advance(ProxyEvent::Failed(error)) {
                ProxyProgress::Finished(Err(PublicError::IOError(e))) => {
                    assert_eq!(e.to_string(), "broken");
                }
                _ => panic!("an operation failed"),
            }
        }
    }
}

#[test]
fn a_relay_connects_and_copies() {
    let relay = Relay::new(Target::Tcp { host: String::from("::1"), port: 9 });
    assert_eq!(relay_name(relay.action()), "connect ::1:9");
    let relay = match relay.advance(Ok(())) {
        RelayProgress::Next(relay) => relay,
        RelayProgress::Finished(outcome) => panic!("{:?}", outcome),
    };
    assert_eq!(relay_name(relay.action()), "copy");
    match relay.advance(Ok(())) {
        RelayProgress::Finished(outcome) => assert!(outcome.is_ok()),
        RelayProgress::Next(relay) => panic!("went on to {}", relay_name(relay.action())),
    }
}

#[test]
fn a_relay_fails_with_the_error_of_its_operation() {
    for copying in [false, true] {
        let target = Target::Unix { socket_file_path: String::from("/run/a.sock") };
        let mut relay = Relay::new(target);
        assert_eq!(relay_name(relay.action()), "connect /run/a.sock");
        if copying {
            relay = match relay.advance(Ok(())) {
                RelayProgress::Next(relay) => relay,
                RelayProgress::Finished(outcome) => panic!("{:?}", outcome),
            };
        }
        match relay.advance(Err(io::Error::new(io::ErrorKind::BrokenPipe, "broken"))) {
            RelayProgress::Finished(Err(e)) => assert_eq!(e.message(), "IOError: broken"),
            _ => panic!("an operation failed"),
        }
    }
}

#[test]
fn commands_start_proxies() {
    let path = String::from("/run/b.sock");
    let host = String::from("example.org");
    let commands = vec![
        (Commands::ActivationProxyUnix { socket_file_path: path.clone() }, "adopt 3"),
        (
            Commands::TcpProxyUnix {
                host: host.clone(),
                port: 81,
                socket_file_path: path.clone(),
            },
            "subscribe",
        ),
        (Commands::UnixProxyTcp { socket_file_path: path, host, port: 82 }, "bind /run/b.sock"),
    ];
    let targets = ["connect /run/b.sock", "connect /run/b.sock", "connect example.org:82"];
    for ((command, first), target) in commands.into_iter().zip(targets) {
        match command.job() {
            Job::Proxy(proxy) => {
                assert_eq!(name(&proxy), first);
                assert_eq!(name(&steps(proxy, 5)), target);
            }
            Job::Pong(_) => panic!("the command starts a proxy"),
        }
    }
}

#[test]
fn a_proxy_takes_over_the_inherited_socket_once() {
    let adopted = [1, 0, 0];
    for (proxy, expected) in proxies().into_iter().zip(adopted) {
        let names = names(proxy, 40);
        assert_eq!(names.iter().filter(|n| *n == "adopt 3").count(), expected);
    }
}
