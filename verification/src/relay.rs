//! A connection that is passed on: connect to the other side, then copy in both
//! directions until both are done.

use vstd::prelude::*;

use crate::helper::PublicError;
use crate::port;

verus! {

/// The other side of a relayed connection.
#[verifier::ext_equal]
pub enum TargetView {
    Unix { socket_file_path: Seq<char> },
    Tcp { host: Seq<char>, port: u16 },
}

/// An operation of a relay.
#[verifier::ext_equal]
pub enum RelayActionView {
    ConnectUnix { path: Seq<char> },
    ConnectTcp { url: Seq<char> },
    Copy,
}

/// What a relay waits for.
#[derive(Debug, Clone, Copy, PartialEq, Eq, Structural)]
pub enum RelayStage {
    /// The other side is being connected to.
    Connecting,
    /// Bytes are being copied in both directions.
    Copying,
}

/// The operation that a relay to `target` performs at a stage.
pub open spec fn relay_action(target: TargetView, stage: RelayStage) -> RelayActionView {
    match stage {
        RelayStage::Connecting => match target {
            TargetView::Unix { socket_file_path } => RelayActionView::ConnectUnix {
                path: socket_file_path,
            },
            TargetView::Tcp { host, port } => RelayActionView::ConnectTcp {
                url: port::url(host, port as nat),
            },
        },
        RelayStage::Copying => RelayActionView::Copy,
    }
}

/// A relay to a target.
#[verifier::ext_equal]
pub struct RelayView {
    pub target: TargetView,
    pub stage: RelayStage,
}

/// Where a relay stands once an operation is over.
#[verifier::ext_equal]
pub enum RelayProgressView {
    Next(RelayView),
    Finished(Result<(), PublicError>),
}

/// What follows an operation of a relay that ended in `outcome`.
pub open spec fn relay_step(
    relay: RelayView,
    outcome: Result<(), std::io::Error>,
) -> RelayProgressView {
    match outcome {
        Err(error) => RelayProgressView::Finished(Err(PublicError::IOError(error))),
        Ok(_) => match relay.stage {
            RelayStage::Connecting => RelayProgressView::Next(
                RelayView { target: relay.target, stage: RelayStage::Copying },
            ),
            RelayStage::Copying => RelayProgressView::Finished(Ok(())),
        },
    }
}

/// The other side of a relayed connection.
pub enum Target {
    /// A Unix socket.
    Unix { socket_file_path: String },
    /// A TCP port.
    Tcp { host: String, port: u16 },
}

impl View for Target {
    type V = TargetView;

    open spec fn view(&self) -> TargetView {
        match self {
            Target::Unix { socket_file_path } => TargetView::Unix {
                socket_file_path: socket_file_path@,
            },
            Target::Tcp { host, port } => TargetView::Tcp { host: host@, port: *port },
        }
    }
}

/// An operation of a relay.
pub enum RelayAction<'a> {
    /// Connect to the Unix socket at `path`.
    ConnectUnix { path: &'a str },
    /// Connect to the TCP address `url`.
    ConnectTcp { url: String },
    /// Copy bytes in both directions until both sides are done.
    Copy,
}

impl<'a> View for RelayAction<'a> {
    type V = RelayActionView;

    open spec fn view(&self) -> RelayActionView {
        match self {
            RelayAction::ConnectUnix { path } => RelayActionView::ConnectUnix { path: path@ },
            RelayAction::ConnectTcp { url } => RelayActionView::ConnectTcp { url: url@ },
            RelayAction::Copy => RelayActionView::Copy,
        }
    }
}

impl Target {
    /// The operation that a relay to this target performs at a stage.
    pub fn action(&self, stage: RelayStage) -> (action: RelayAction<'_>)
        ensures
            action@ == relay_action(self@, stage),
    {
        match stage {
            RelayStage::Connecting => match self {
                Target::Unix { socket_file_path } => RelayAction::ConnectUnix {
                    path: socket_file_path.as_str(),
                },
                Target::Tcp { host, port } => RelayAction::ConnectTcp {
                    url: port::connection_url(host.as_str(), *port),
                },
            },
            RelayStage::Copying => RelayAction::Copy,
        }
    }
}

/// A relay of one connection. Its action is to be performed, and the outcome told
/// to it.
pub struct Relay {
    target: Target,
    stage: RelayStage,
}

impl View for Relay {
    type V = RelayView;

    closed spec fn view(&self) -> RelayView {
        RelayView { target: self.target@, stage: self.stage }
    }
}

/// Where a relay stands once an operation is over.
pub enum RelayProgress {
    /// Another operation is to be performed.
    Next(Relay),
    /// The connection is over, or the first error that came up.
    Finished(Result<(), PublicError>),
}

impl View for RelayProgress {
    type V = RelayProgressView;

    open spec fn view(&self) -> RelayProgressView {
        match self {
            RelayProgress::Next(relay) => RelayProgressView::Next(relay@),
            RelayProgress::Finished(outcome) => RelayProgressView::Finished(*outcome),
        }
    }
}

impl Relay {
    /// Starts to relay a connection to `target`.
    pub fn new(target: Target) -> (relay: Relay)
        ensures
            relay@ == (RelayView { target: target@, stage: RelayStage::Connecting }),
    {
        Relay { target, stage: RelayStage::Connecting }
    }

    /// The operation to perform now.
    pub fn action(&self) -> (action: RelayAction<'_>)
        ensures
            action@ == relay_action(self@.target, self@.stage),
    {
        self.target.action(self.stage)
    }

    /// Goes on from the operation that was performed.
    pub fn advance(self, outcome: Result<(), std::io::Error>) -> (progress: RelayProgress)
        ensures
            progress@ == relay_step(self@, outcome),
    {
        match outcome {
            Err(error) => RelayProgress::Finished(Err(PublicError::from(error))),
            Ok(_) => match self.stage {
                RelayStage::Connecting => RelayProgress::Next(
                    Relay { target: self.target, stage: RelayStage::Copying },
                ),
                RelayStage::Copying => RelayProgress::Finished(Ok(())),
            },
        }
    }
}

/// A relay connects to the Unix socket of its target, by the whole of its path.
pub proof fn law_relay_connects_to_unix(path: Seq<char>)
    ensures
        relay_action(TargetView::Unix { socket_file_path: path }, RelayStage::Connecting) == (
        RelayActionView::ConnectUnix { path }),
{
}

/// A relay connects to the TCP port of its target: to an address that is the whole
/// host, one colon and a decimal text that reads back as the port.
pub proof fn law_relay_connects_to_tcp(host: Seq<char>, port: u16)
    ensures
        relay_action(TargetView::Tcp { host, port }, RelayStage::Connecting) matches
            RelayActionView::ConnectTcp { url } && url.take(host.len() as int) == host
            && url[host.len() as int] == ':' && url.skip(host.len() as int + 1)
            == crate::decimal::decimal(port as nat) && crate::decimal::parsed(
            url.skip(host.len() as int + 1),
            65535,
        ) == Some(port as nat),
{
    port::law_url_parts(host, port as nat);
    crate::decimal::law_parsed_decimal(port as nat, 65535);
}

/// A relay connects, then copies, and then is over; the first error ends it and is its
/// outcome. Its target stays the same.
pub proof fn law_relay_order(target: TargetView, stage: RelayStage, error: std::io::Error)
    ensures
        relay_action(target, RelayStage::Copying) is Copy,
        relay_step(RelayView { target, stage: RelayStage::Connecting }, Ok(()))
            == RelayProgressView::Next(RelayView { target, stage: RelayStage::Copying }),
        relay_step(RelayView { target, stage: RelayStage::Copying }, Ok(()))
            == RelayProgressView::Finished(Ok(())),
        relay_step(RelayView { target, stage }, Err(error)) == RelayProgressView::Finished(
            Err(PublicError::IOError(error)),
        ),
{
}

/// What a relay is given and what it asks for are taken as they are.
pub proof fn law_relay_shown<'a>(
    host: String,
    port: u16,
    file: String,
    path: &'a str,
    url: String,
    relay: Relay,
    outcome: Result<(), PublicError>,
)
    ensures
        (Target::Unix { socket_file_path: file })@ == (TargetView::Unix {
            socket_file_path: file@,
        }),
        (Target::Tcp { host, port })@ == (TargetView::Tcp { host: host@, port }),
        (RelayAction::ConnectUnix { path })@ == (RelayActionView::ConnectUnix { path: path@ }),
        (RelayAction::ConnectTcp { url })@ == (RelayActionView::ConnectTcp { url: url@ }),
        RelayAction::Copy@ == RelayActionView::Copy,
        RelayProgress::Next(relay)@ == RelayProgressView::Next(relay@),
        RelayProgress::Finished(outcome)@ == RelayProgressView::Finished(outcome),
{
}

} // verus!
