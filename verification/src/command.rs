//! The commands, and what each of them starts.

use vstd::prelude::*;

use crate::pong;
use crate::pong::Pong;
use crate::pong::PongActionView;
use crate::pong::PongEventView;
use crate::pong::PongOutcome;
use crate::pong::PongProgressView;
use crate::pong::PongView;
use crate::proxy;
use crate::proxy::Proxy;
use crate::proxy::ProxyActionView;
use crate::proxy::ProxyEvent;
use crate::proxy::ProxyProgressView;
use crate::proxy::ProxyView;
use crate::relay::RelayActionView;

verus! {

/// What can be asked for on the command line.
pub enum Commands {
    /// Serve on the listening socket of the service manager.
    ActivationPong,
    /// Serve the accepted TCP connection of the service manager.
    ActivationPongAccepted,
    /// Serve on the listening Unix socket of the service manager.
    ActivationPongUnix,
    /// Relay from the TCP socket of the service manager to a Unix socket.
    ActivationProxyUnix { socket_file_path: String },
    /// Relay from a TCP port to a Unix socket.
    TcpProxyUnix { host: String, port: u16, socket_file_path: String },
    /// Serve on a Unix socket.
    UnixPong { socket_file_path: String },
    /// Relay from a Unix socket to a TCP port.
    UnixProxyTcp { socket_file_path: String, host: String, port: u16 },
}

/// What a command starts.
#[verifier::ext_equal]
pub enum JobView {
    Pong(PongView),
    Proxy(ProxyView),
}

/// What a command starts.
pub enum Job {
    /// A server.
    Pong(Pong),
    /// A proxy.
    Proxy(Proxy),
}

impl View for Job {
    type V = JobView;

    open spec fn view(&self) -> JobView {
        match self {
            Job::Pong(pong) => JobView::Pong(pong@),
            Job::Proxy(proxy) => JobView::Proxy(proxy@),
        }
    }
}

impl Commands {
    /// What the command starts.
    pub open spec fn spec_job(self) -> JobView {
        match self {
            Commands::ActivationPong => JobView::Pong(pong::listener_start()),
            Commands::ActivationPongAccepted => JobView::Pong(pong::connection_start()),
            Commands::ActivationPongUnix => JobView::Pong(pong::listener_start()),
            Commands::ActivationProxyUnix { socket_file_path } => JobView::Proxy(
                proxy::proxy_start(proxy::activation_route(socket_file_path@)),
            ),
            Commands::TcpProxyUnix { host, port, socket_file_path } => JobView::Proxy(
                proxy::proxy_start(proxy::tcp_route(host@, port, socket_file_path@)),
            ),
            Commands::UnixPong { socket_file_path } => JobView::Pong(
                pong::file_start(socket_file_path@),
            ),
            Commands::UnixProxyTcp { socket_file_path, host, port } => JobView::Proxy(
                proxy::proxy_start(proxy::unix_route(socket_file_path@, host@, port)),
            ),
        }
    }

    /// Starts what the command asks for.
    pub fn job(self) -> (job: Job)
        ensures
            job@ == self.spec_job(),
    {
        match self {
            Commands::ActivationPong => Job::Pong(pong::socket_activation_pong()),
            Commands::ActivationPongAccepted => Job::Pong(pong::socket_activation_accepted_pong()),
            Commands::ActivationPongUnix => Job::Pong(pong::socket_activation_unix_pong()),
            Commands::ActivationProxyUnix { socket_file_path } => Job::Proxy(
                proxy::socket_activation_proxy(socket_file_path.as_str()),
            ),
            Commands::TcpProxyUnix { host, port, socket_file_path } => Job::Proxy(
                proxy::tcp_proxy(host.as_str(), port, socket_file_path.as_str()),
            ),
            Commands::UnixPong { socket_file_path } => Job::Pong(
                pong::unix_pong(socket_file_path.as_str()),
            ),
            Commands::UnixProxyTcp { socket_file_path, host, port } => Job::Proxy(
                proxy::unix_proxy(socket_file_path.as_str(), host.as_str(), port),
            ),
        }
    }
}

/// What is started is taken as it is.
pub proof fn law_job_shown(pong: Pong, proxy: Proxy)
    ensures
        Job::Pong(pong)@ == JobView::Pong(pong@),
        Job::Proxy(proxy)@ == JobView::Proxy(proxy@),
{
}

/// The command starts a proxy that takes over descriptor 3, subscribes, sets the socket
/// up, and then accepts, connects to the Unix socket that the command names and
/// copies, in turn, as long as its operations succeed.
pub proof fn law_activation_proxy_unix(socket_file_path: String, events: Seq<ProxyEvent>, n: nat)
    ensures
        (Commands::ActivationProxyUnix { socket_file_path }).spec_job() matches JobView::Proxy(start) && ({
            &&& proxy::proxy_run(start, Seq::new(n, |i: int| ProxyEvent::Done)) is Next
            &&& proxy::proxy_run(start, events) matches ProxyProgressView::Next(proxy)
                ==> proxy::proxy_action(proxy) == ({
                let n = proxy::done_count(events);
                if n == 0 {
                    ProxyActionView::Adopt { fd: 3 }
                } else if n == 1 {
                    ProxyActionView::Subscribe
                } else if n == 2 {
                    ProxyActionView::SetNonblocking
                } else if n == 3 {
                    ProxyActionView::Register
                } else if (n - 4) % 3 == 0 {
                    ProxyActionView::Accept
                } else if (n - 4) % 3 == 1 {
                    ProxyActionView::Relay(RelayActionView::ConnectUnix { path: socket_file_path@ })
                } else {
                    ProxyActionView::Relay(RelayActionView::Copy)
                }
            })
        }),
{
    proxy::law_activation_proxy_operations(socket_file_path@, events);
    proxy::law_proxy_order(proxy::activation_route(socket_file_path@), n);
    assert(proxy::all_done(n) =~= Seq::new(n, |i: int| ProxyEvent::Done));
}

/// The command starts a proxy that subscribes, binds the host and port that the command
/// names, sets the socket up, and then accepts, connects to the Unix socket that the
/// command names and copies, in turn, as long as its operations succeed.
pub proof fn law_tcp_proxy_unix(
    host: String,
    port: u16,
    socket_file_path: String, events: Seq<ProxyEvent>, n: nat)
    ensures
        (Commands::TcpProxyUnix { host, port, socket_file_path }).spec_job() matches JobView::Proxy(start) && ({
            &&& proxy::proxy_run(start, Seq::new(n, |i: int| ProxyEvent::Done)) is Next
            &&& proxy::proxy_run(start, events) matches ProxyProgressView::Next(proxy)
                ==> proxy::proxy_action(proxy) == ({
                let n = proxy::done_count(events);
                if n == 0 {
                    ProxyActionView::Subscribe
                } else if n == 1 {
                    ProxyActionView::BindTcp { host: host@, port }
                } else if n == 2 {
                    ProxyActionView::SetNonblocking
                } else if n == 3 {
                    ProxyActionView::Register
                } else if (n - 4) % 3 == 0 {
                    ProxyActionView::Accept
                } else if (n - 4) % 3 == 1 {
                    ProxyActionView::Relay(RelayActionView::ConnectUnix { path: socket_file_path@ })
                } else {
                    ProxyActionView::Relay(RelayActionView::Copy)
                }
            })
        }),
{
    proxy::law_tcp_proxy_operations(host@, port, socket_file_path@, events);
    proxy::law_proxy_order(proxy::tcp_route(host@, port, socket_file_path@), n);
    assert(proxy::all_done(n) =~= Seq::new(n, |i: int| ProxyEvent::Done));
}

/// The command starts a proxy that binds the Unix socket that the command names, sets
/// it up, subscribes, and then accepts, connects to the host and port that the command
/// names and copies, in turn, as long as its operations succeed.
pub proof fn law_unix_proxy_tcp(
    socket_file_path: String,
    host: String,
    port: u16, events: Seq<ProxyEvent>, n: nat)
    ensures
        (Commands::UnixProxyTcp { socket_file_path, host, port }).spec_job() matches JobView::Proxy(start) && ({
            &&& proxy::proxy_run(start, Seq::new(n, |i: int| ProxyEvent::Done)) is Next
            &&& proxy::proxy_run(start, events) matches ProxyProgressView::Next(proxy)
                ==> proxy::proxy_action(proxy) == ({
                let n = proxy::done_count(events);
                if n == 0 {
                    ProxyActionView::BindUnix { path: socket_file_path@ }
                } else if n == 1 {
                    ProxyActionView::SetNonblocking
                } else if n == 2 {
                    ProxyActionView::Register
                } else if n == 3 {
                    ProxyActionView::Subscribe
                } else if (n - 4) % 3 == 0 {
                    ProxyActionView::Accept
                } else if (n - 4) % 3 == 1 {
                    ProxyActionView::Relay(
                        RelayActionView::ConnectTcp {
                            url: host@ + seq![':'] + crate::decimal::decimal(port as nat),
                        },
                    )
                } else {
                    ProxyActionView::Relay(RelayActionView::Copy)
                }
            })
        }),
{
    proxy::law_unix_proxy_operations(socket_file_path@, host@, port, events);
    proxy::law_proxy_order(proxy::unix_route(socket_file_path@, host@, port), n);
    assert(proxy::all_done(n) =~= Seq::new(n, |i: int| ProxyEvent::Done));
}

/// The commands for a listening socket of the service manager start a server that takes
/// over descriptor 3 as a listening socket, sets it up, subscribes and serves.
pub proof fn law_activation_pong(k: nat)
    requires
        k <= 5,
    ensures
        Commands::ActivationPongUnix.spec_job() == Commands::ActivationPong.spec_job(),
        Commands::ActivationPong.spec_job() matches JobView::Pong(start) && ({
            let events = Seq::new(k, |i: int| PongEventView::Done);
            if k == 5 {
                pong::pong_run(start, events) == PongProgressView::Finished(PongOutcome::Served)
            } else {
                &&& pong::pong_run(start, events) matches PongProgressView::Next(pong)
                &&& pong::pong_action(pong) == if k == 0 {
                    PongActionView::AdoptListener { fd: 3 }
                } else if k == 1 {
                    PongActionView::SetNonblocking
                } else if k == 2 {
                    PongActionView::Register
                } else if k == 3 {
                    PongActionView::Subscribe
                } else {
                    PongActionView::Serve
                }
            }
        }),
{
    pong::law_listener_operations(k);
}

/// The command starts a server that takes over descriptor 3 as an accepted connection,
/// sets it up, looks for a file, removes and binds that file, relays the connection
/// to it, subscribes, serves and waits for the relaying to end.
pub proof fn law_activation_pong_accepted(path: Seq<char>, removal: PongEventView, k: nat)
    requires
        k <= 10,
        removal is Done || removal is Failed,
    ensures
        Commands::ActivationPongAccepted.spec_job() matches JobView::Pong(start) && ({
            let events = seq![
                PongEventView::Done,
                PongEventView::Done,
                PongEventView::Done,
                PongEventView::Found { path },
                removal,
                PongEventView::Done,
                PongEventView::Done,
                PongEventView::Done,
                PongEventView::Done,
                PongEventView::Done,
            ].take(k as int);
            if k == 10 {
                pong::pong_run(start, events) == PongProgressView::Finished(PongOutcome::Served)
            } else {
                &&& pong::pong_run(start, events) matches PongProgressView::Next(pong)
                &&& if k == 6 {
                    &&& pong::pong_action(pong) matches PongActionView::Forward { relay }
                    &&& crate::relay::relay_action(relay.target, relay.stage) == (
                    RelayActionView::ConnectUnix { path })
                } else {
                    pong::pong_action(pong) == if k == 0 {
                        PongActionView::AdoptConnection { fd: 3 }
                    } else if k == 1 {
                        PongActionView::SetNonblocking
                    } else if k == 2 {
                        PongActionView::Register
                    } else if k == 3 {
                        PongActionView::FindSocketFile
                    } else if k == 4 {
                        PongActionView::RemoveFile { path }
                    } else if k == 5 {
                        PongActionView::BindPrivate { path }
                    } else if k == 7 {
                        PongActionView::Subscribe
                    } else if k == 8 {
                        PongActionView::Serve
                    } else {
                        PongActionView::JoinForward
                    }
                }
            }
        }),
{
    pong::law_connection_operations(path, removal, k);
}

/// The command starts a server that removes and binds the path that the command names,
/// subscribes and serves.
pub proof fn law_unix_pong(socket_file_path: String, removal: PongEventView, k: nat)
    requires
        k <= 4,
        removal is Done || removal is Failed,
    ensures
        (Commands::UnixPong { socket_file_path }).spec_job() matches JobView::Pong(start) && ({
            let events = seq![
                removal,
                PongEventView::Done,
                PongEventView::Done,
                PongEventView::Done,
            ].take(k as int);
            if k == 4 {
                pong::pong_run(start, events) == PongProgressView::Finished(PongOutcome::Served)
            } else {
                &&& pong::pong_run(start, events) matches PongProgressView::Next(pong)
                &&& pong::pong_action(pong) == if k == 0 {
                    PongActionView::RemoveFile { path: socket_file_path@ }
                } else if k == 1 {
                    PongActionView::BindPrivate { path: socket_file_path@ }
                } else if k == 2 {
                    PongActionView::Subscribe
                } else {
                    PongActionView::Serve
                }
            }
        }),
{
    pong::law_file_operations(socket_file_path@, removal, k);
}

} // verus!
