//! The serving commands: get hold of a listening Unix socket and answer requests
//! on it until told to shut down.
//!
//! The socket comes from the service manager, or it is made at a path. Where the
//! service manager hands over a connection that is accepted already, a listening
//! socket is made at a new path and the connection is relayed to it.

use vstd::prelude::*;

use crate::proxy::ACTIVATION_FD;
use crate::relay::Relay;
use crate::relay::RelayStage;
use crate::relay::RelayView;
use crate::relay::Target;
use crate::relay::TargetView;

verus! {

/// Where the listening socket comes from.
#[derive(Debug, Clone, Copy, PartialEq, Eq, Structural)]
pub enum PongKind {
    /// The service manager hands it over.
    Listener,
    /// The service manager hands over an accepted connection instead.
    Connection,
    /// It is made at a path.
    File,
}

/// What a server waits for.
#[verifier::ext_equal]
pub enum PongStageView {
    Opening,
    Unblocking,
    Registering,
    Searching,
    Removing { path: Seq<char> },
    Binding { path: Seq<char> },
    Forwarding { path: Seq<char> },
    Subscribing,
    Serving,
    Joining,
}

/// An operation of a server.
#[verifier::ext_equal]
pub enum PongActionView {
    AdoptListener { fd: i32 },
    AdoptConnection { fd: i32 },
    SetNonblocking,
    Register,
    FindSocketFile,
    RemoveFile { path: Seq<char> },
    BindPrivate { path: Seq<char> },
    Forward { relay: RelayView },
    Subscribe,
    Serve,
    JoinForward,
}

/// What can happen to a server.
#[verifier::ext_equal]
pub enum PongEventView {
    Done,
    Failed,
    Found { path: Seq<char> },
}

/// A server.
#[verifier::ext_equal]
pub struct PongView {
    pub kind: PongKind,
    pub stage: PongStageView,
}

/// How a server ended.
#[derive(Debug, Clone, Copy, PartialEq, Eq, Structural)]
pub enum PongOutcome {
    /// It answered requests until it was told to shut down.
    Served,
    /// The socket it was handed could not be set to non-blocking mode.
    NotUnblocked,
    /// The socket it was handed could not be handed to the runtime.
    NotRegistered,
    /// The socket at its path could not be made.
    NotBound,
    /// No new file for its socket could be found.
    NoSocketFile,
}

/// Where a server stands once something has happened.
#[verifier::ext_equal]
pub enum PongProgressView {
    Next(PongView),
    Finished(PongOutcome),
}

/// The relay of the accepted connection to the socket at `path`, at its start.
pub open spec fn relay_to(path: Seq<char>) -> RelayView {
    RelayView {
        target: TargetView::Unix { socket_file_path: path },
        stage: RelayStage::Connecting,
    }
}

/// The operation that a server performs now.
pub open spec fn pong_action(pong: PongView) -> PongActionView {
    match pong.stage {
        PongStageView::Opening => if pong.kind is Connection {
            PongActionView::AdoptConnection { fd: ACTIVATION_FD }
        } else {
            PongActionView::AdoptListener { fd: ACTIVATION_FD }
        },
        PongStageView::Unblocking => PongActionView::SetNonblocking,
        PongStageView::Registering => PongActionView::Register,
        PongStageView::Searching => PongActionView::FindSocketFile,
        PongStageView::Removing { path } => PongActionView::RemoveFile { path },
        PongStageView::Binding { path } => PongActionView::BindPrivate { path },
        PongStageView::Forwarding { path } => PongActionView::Forward { relay: relay_to(path) },
        PongStageView::Subscribing => PongActionView::Subscribe,
        PongStageView::Serving => PongActionView::Serve,
        PongStageView::Joining => PongActionView::JoinForward,
    }
}

/// The same server at another stage.
pub open spec fn pong_at(pong: PongView, stage: PongStageView) -> PongProgressView {
    PongProgressView::Next(PongView { kind: pong.kind, stage })
}

/// What follows an operation that succeeded.
pub open spec fn pong_done(pong: PongView) -> PongProgressView {
    match pong.stage {
        PongStageView::Opening => pong_at(pong, PongStageView::Unblocking),
        PongStageView::Unblocking => pong_at(pong, PongStageView::Registering),
        PongStageView::Registering => if pong.kind is Connection {
            pong_at(pong, PongStageView::Searching)
        } else {
            pong_at(pong, PongStageView::Subscribing)
        },
        PongStageView::Searching => PongProgressView::Next(pong),
        PongStageView::Removing { path } => pong_at(pong, PongStageView::Binding { path }),
        PongStageView::Binding { path } => if pong.kind is Connection {
            pong_at(pong, PongStageView::Forwarding { path })
        } else {
            pong_at(pong, PongStageView::Subscribing)
        },
        PongStageView::Forwarding { .. } => pong_at(pong, PongStageView::Subscribing),
        PongStageView::Subscribing => pong_at(pong, PongStageView::Serving),
        PongStageView::Serving => if pong.kind is Connection {
            pong_at(pong, PongStageView::Joining)
        } else {
            PongProgressView::Finished(PongOutcome::Served)
        },
        PongStageView::Joining => PongProgressView::Finished(PongOutcome::Served),
    }
}

/// What follows an operation that failed. That there was no file to remove, or that
/// the forwarding went wrong, stops nothing. Taking over a socket, starting to relay,
/// subscribing and serving cannot fail: they are left under way.
pub open spec fn pong_failed(pong: PongView) -> PongProgressView {
    match pong.stage {
        PongStageView::Unblocking => PongProgressView::Finished(PongOutcome::NotUnblocked),
        PongStageView::Registering => PongProgressView::Finished(PongOutcome::NotRegistered),
        PongStageView::Searching => PongProgressView::Finished(PongOutcome::NoSocketFile),
        PongStageView::Removing { path } => pong_at(pong, PongStageView::Binding { path }),
        PongStageView::Binding { .. } => PongProgressView::Finished(PongOutcome::NotBound),
        PongStageView::Joining => PongProgressView::Finished(PongOutcome::Served),
        _ => PongProgressView::Next(pong),
    }
}

/// What follows an event.
pub open spec fn pong_step(pong: PongView, event: PongEventView) -> PongProgressView {
    match event {
        PongEventView::Done => pong_done(pong),
        PongEventView::Failed => pong_failed(pong),
        PongEventView::Found { path } => if pong.stage is Searching {
            pong_at(pong, PongStageView::Removing { path })
        } else {
            PongProgressView::Next(pong)
        },
    }
}

/// What a server waits for.
enum PongStage {
    Opening,
    Unblocking,
    Registering,
    Searching,
    Removing { path: String },
    Binding { path: String },
    Forwarding { path: String },
    Subscribing,
    Serving,
    Joining,
}

impl View for PongStage {
    type V = PongStageView;

    closed spec fn view(&self) -> PongStageView {
        match self {
            PongStage::Opening => PongStageView::Opening,
            PongStage::Unblocking => PongStageView::Unblocking,
            PongStage::Registering => PongStageView::Registering,
            PongStage::Searching => PongStageView::Searching,
            PongStage::Removing { path } => PongStageView::Removing { path: path@ },
            PongStage::Binding { path } => PongStageView::Binding { path: path@ },
            PongStage::Forwarding { path } => PongStageView::Forwarding { path: path@ },
            PongStage::Subscribing => PongStageView::Subscribing,
            PongStage::Serving => PongStageView::Serving,
            PongStage::Joining => PongStageView::Joining,
        }
    }
}

/// A server. Its action is to be performed, and what happens told to it.
pub struct Pong {
    kind: PongKind,
    stage: PongStage,
}

impl View for Pong {
    type V = PongView;

    closed spec fn view(&self) -> PongView {
        PongView { kind: self.kind, stage: self.stage@ }
    }
}

/// What can happen to a server.
pub enum PongEvent {
    /// Its operation succeeded.
    Done,
    /// Its operation failed.
    Failed,
    /// The new file that was looked for.
    Found { path: String },
}

impl View for PongEvent {
    type V = PongEventView;

    open spec fn view(&self) -> PongEventView {
        match self {
            PongEvent::Done => PongEventView::Done,
            PongEvent::Failed => PongEventView::Failed,
            PongEvent::Found { path } => PongEventView::Found { path: path@ },
        }
    }
}

/// Where a server stands once something has happened.
pub enum PongProgress {
    /// Another operation is to be performed.
    Next(Pong),
    /// The server is over.
    Finished(PongOutcome),
}

impl View for PongProgress {
    type V = PongProgressView;

    open spec fn view(&self) -> PongProgressView {
        match self {
            PongProgress::Next(pong) => PongProgressView::Next(pong@),
            PongProgress::Finished(outcome) => PongProgressView::Finished(*outcome),
        }
    }
}

/// An operation of a server.
pub enum PongAction<'a> {
    /// Take over the listening Unix socket with this file descriptor.
    AdoptListener { fd: i32 },
    /// Take over the accepted TCP connection with this file descriptor.
    AdoptConnection { fd: i32 },
    /// Set the socket that was taken over to non-blocking mode.
    SetNonblocking,
    /// Hand the socket that was taken over to the runtime.
    Register,
    /// Find a new file for a socket.
    FindSocketFile,
    /// Remove the file at `path`.
    RemoveFile { path: &'a str },
    /// Make a listening socket at `path` that only the current user can reach.
    BindPrivate { path: &'a str },
    /// Start to relay the connection to the socket that was made.
    Forward { relay: Relay },
    /// Subscribe to requests to shut down.
    Subscribe,
    /// Answer requests until told to shut down.
    Serve,
    /// Wait for the relaying to end.
    JoinForward,
}

impl<'a> View for PongAction<'a> {
    type V = PongActionView;

    open spec fn view(&self) -> PongActionView {
        match self {
            PongAction::AdoptListener { fd } => PongActionView::AdoptListener { fd: *fd },
            PongAction::AdoptConnection { fd } => PongActionView::AdoptConnection { fd: *fd },
            PongAction::SetNonblocking => PongActionView::SetNonblocking,
            PongAction::Register => PongActionView::Register,
            PongAction::FindSocketFile => PongActionView::FindSocketFile,
            PongAction::RemoveFile { path } => PongActionView::RemoveFile { path: path@ },
            PongAction::BindPrivate { path } => PongActionView::BindPrivate { path: path@ },
            PongAction::Forward { relay } => PongActionView::Forward { relay: relay@ },
            PongAction::Subscribe => PongActionView::Subscribe,
            PongAction::Serve => PongActionView::Serve,
            PongAction::JoinForward => PongActionView::JoinForward,
        }
    }
}

/// A server on the listening socket of the service manager, at its start.
pub open spec fn listener_start() -> PongView {
    PongView { kind: PongKind::Listener, stage: PongStageView::Opening }
}

/// A server for the accepted connection of the service manager, at its start.
pub open spec fn connection_start() -> PongView {
    PongView { kind: PongKind::Connection, stage: PongStageView::Opening }
}

/// A server at a path, at its start.
pub open spec fn file_start(path: Seq<char>) -> PongView {
    PongView { kind: PongKind::File, stage: PongStageView::Removing { path } }
}

/// Starts a server on the listening socket of the service manager.
pub fn socket_activation_pong() -> (pong: Pong)
    ensures
        pong@ == listener_start(),
{
    Pong { kind: PongKind::Listener, stage: PongStage::Opening }
}

/// Starts a server on the listening Unix socket of the service manager.
pub fn socket_activation_unix_pong() -> (pong: Pong)
    ensures
        pong@ == listener_start(),
{
    Pong { kind: PongKind::Listener, stage: PongStage::Opening }
}

/// Starts a server for the accepted TCP connection of the service manager.
pub fn socket_activation_accepted_pong() -> (pong: Pong)
    ensures
        pong@ == connection_start(),
{
    Pong { kind: PongKind::Connection, stage: PongStage::Opening }
}

/// Starts a server on a Unix socket at `socket_file_path`.
pub fn unix_pong(socket_file_path: &str) -> (pong: Pong)
    ensures
        pong@ == file_start(socket_file_path@),
{
    let path = String::from_str(socket_file_path);
    Pong { kind: PongKind::File, stage: PongStage::Removing { path } }
}

impl Pong {
    /// Where the listening socket comes from.
    pub fn kind(&self) -> (kind: PongKind)
        ensures
            kind == self@.kind,
    {
        self.kind
    }

    /// The operation to perform now.
    pub fn action(&self) -> (action: PongAction<'_>)
        ensures
            action@ == pong_action(self@),
    {
        match &self.stage {
            PongStage::Opening => match self.kind {
                PongKind::Connection => PongAction::AdoptConnection { fd: ACTIVATION_FD },
                _ => PongAction::AdoptListener { fd: ACTIVATION_FD },
            },
            PongStage::Unblocking => PongAction::SetNonblocking,
            PongStage::Registering => PongAction::Register,
            PongStage::Searching => PongAction::FindSocketFile,
            PongStage::Removing { path } => PongAction::RemoveFile { path: path.as_str() },
            PongStage::Binding { path } => PongAction::BindPrivate { path: path.as_str() },
            PongStage::Forwarding { path } => PongAction::Forward {
                relay: Relay::new(Target::Unix { socket_file_path: path.clone() }),
            },
            PongStage::Subscribing => PongAction::Subscribe,
            PongStage::Serving => PongAction::Serve,
            PongStage::Joining => PongAction::JoinForward,
        }
    }

    /// Goes on from an operation that succeeded.
    fn done(self) -> (progress: PongProgress)
        ensures
            progress@ == pong_done(self@),
    {
        let kind = self.kind;
        let connection = match kind {
            PongKind::Connection => true,
            _ => false,
        };
        let stage = match self.stage {
            PongStage::Opening => PongStage::Unblocking,
            PongStage::Unblocking => PongStage::Registering,
            PongStage::Registering => if connection {
                PongStage::Searching
            } else {
                PongStage::Subscribing
            },
            PongStage::Searching => PongStage::Searching,
            PongStage::Removing { path } => PongStage::Binding { path },
            PongStage::Binding { path } => if connection {
                PongStage::Forwarding { path }
            } else {
                PongStage::Subscribing
            },
            PongStage::Forwarding { .. } => PongStage::Subscribing,
            PongStage::Subscribing => PongStage::Serving,
            PongStage::Serving => {
                if !connection {
                    return PongProgress::Finished(PongOutcome::Served);
                }
                PongStage::Joining
            },
            PongStage::Joining => {
                return PongProgress::Finished(PongOutcome::Served);
            },
        };
        PongProgress::Next(Pong { kind, stage })
    }

    /// Goes on from an operation that failed.
    fn failed(self) -> (progress: PongProgress)
        ensures
            progress@ == pong_failed(self@),
    {
        match self.stage {
            PongStage::Unblocking => PongProgress::Finished(PongOutcome::NotUnblocked),
            PongStage::Registering => PongProgress::Finished(PongOutcome::NotRegistered),
            PongStage::Searching => PongProgress::Finished(PongOutcome::NoSocketFile),
            PongStage::Removing { path } => PongProgress::Next(
                Pong { kind: self.kind, stage: PongStage::Binding { path } },
            ),
            PongStage::Binding { .. } => PongProgress::Finished(PongOutcome::NotBound),
            PongStage::Joining => PongProgress::Finished(PongOutcome::Served),
            stage => PongProgress::Next(Pong { kind: self.kind, stage }),
        }
    }

    /// Goes on from what happened.
    pub fn advance(self, event: PongEvent) -> (progress: PongProgress)
        ensures
            progress@ == pong_step(self@, event@),
    {
        match event {
            PongEvent::Done => self.done(),
            PongEvent::Failed => self.failed(),
            PongEvent::Found { path } => match self.stage {
                PongStage::Searching => PongProgress::Next(
                    Pong { kind: self.kind, stage: PongStage::Removing { path } },
                ),
                stage => PongProgress::Next(Pong { kind: self.kind, stage }),
            },
        }
    }
}

/// Where a server stands after a number of events.
pub open spec fn pong_run(pong: PongView, events: Seq<PongEventView>) -> PongProgressView
    decreases events.len(),
{
    if events.len() == 0 {
        PongProgressView::Next(pong)
    } else {
        match pong_run(pong, events.drop_last()) {
            PongProgressView::Next(next) => pong_step(next, events.last()),
            done => done,
        }
    }
}

/// The path that a server works on at a stage, if it works on one.
pub open spec fn stage_path(stage: PongStageView) -> Option<Seq<char>> {
    match stage {
        PongStageView::Removing { path } => Some(path),
        PongStageView::Binding { path } => Some(path),
        PongStageView::Forwarding { path } => Some(path),
        _ => None,
    }
}

/// A server on the listening socket of the service manager touches no file.
pub proof fn law_listener_touches_no_file(events: Seq<PongEventView>)
    ensures
        pong_run(listener_start(), events) matches PongProgressView::Next(pong) ==> {
            &&& pong.kind is Listener
            &&& stage_path(pong.stage) is None
            &&& !(pong.stage is Searching)
            &&& !(pong.stage is Joining)
        },
    decreases events.len(),
{
    if events.len() > 0 {
        law_listener_touches_no_file(events.drop_last());
    }
}

/// A server at a path works on that path only, and takes over no socket.
pub proof fn law_file_keeps_path(path: Seq<char>, events: Seq<PongEventView>)
    ensures
        pong_run(file_start(path), events) matches PongProgressView::Next(pong) ==> {
            &&& pong.kind is File
            &&& stage_path(pong.stage) matches Some(used) ==> used == path
            &&& stage_path(pong.stage) is Some || pong.stage is Subscribing
                || pong.stage is Serving
            &&& !(pong.stage is Forwarding)
        },
    decreases events.len(),
{
    if events.len() > 0 {
        law_file_keeps_path(path, events.drop_last());
    }
}

/// The file that a server for an accepted connection removes, binds and relays to is
/// the new one that was found for it.
pub proof fn law_connection_uses_found_file(events: Seq<PongEventView>, path: Seq<char>)
    requires
        pong_run(connection_start(), events) matches PongProgressView::Next(pong) && stage_path(
            pong.stage,
        ) == Some(path),
    ensures
        exists|i: int|
            0 <= i < events.len() && #[trigger] events[i] == (PongEventView::Found { path }),
    decreases events.len(),
{
    let shorter = events.drop_last();
    let before = pong_run(connection_start(), shorter)->Next_0;
    if stage_path(before.stage) == Some(path) {
        law_connection_uses_found_file(shorter, path);
        let k = choose|i: int|
            0 <= i < shorter.len() && #[trigger] shorter[i] == (PongEventView::Found { path });
        assert(events[k] == shorter[k]);
    } else {
        assert(events[events.len() - 1] == (PongEventView::Found { path }));
    }
}

/// Once a server works on a path, it never works on another one.
pub proof fn law_keeps_path(start: PongView, path: Seq<char>, events: Seq<PongEventView>)
    requires
        stage_path(start.stage) == Some(path),
    ensures
        pong_run(start, events) matches PongProgressView::Next(pong) ==> {
            ||| stage_path(pong.stage) == Some(path)
            ||| pong.stage is Subscribing
            ||| pong.stage is Serving
            ||| pong.stage is Joining
        },
    decreases events.len(),
{
    if events.len() > 0 {
        law_keeps_path(start, path, events.drop_last());
    }
}

/// The socket of the service manager is taken over once at most, so that it has one
/// owner only: before any operation of the server has succeeded.
pub proof fn law_descriptor_taken_over_once(start: PongView, events: Seq<PongEventView>)
    requires
        pong_run(start, events) matches PongProgressView::Next(pong) && (pong_action(
            pong,
        ) is AdoptListener || pong_action(pong) is AdoptConnection),
    ensures
        start.stage is Opening,
        forall|i: int| 0 <= i < events.len() ==> !((#[trigger] events[i]) is Done),
    decreases events.len(),
{
    if events.len() > 0 {
        let shorter = events.drop_last();
        law_descriptor_taken_over_once(start, shorter);
        assert forall|i: int| 0 <= i < events.len() implies !((#[trigger] events[i]) is Done) by {
            if i < shorter.len() {
                assert(shorter[i] == events[i]);
            }
        }
    }
}

/// The stage of a server when the event with the given index comes in.
pub open spec fn stage_before(
    start: PongView,
    events: Seq<PongEventView>,
    index: int,
) -> Option<PongStageView> {
    match pong_run(start, events.take(index)) {
        PongProgressView::Next(pong) => Some(pong.stage),
        PongProgressView::Finished(_) => None,
    }
}

/// Whether the event with the given index ends the answering of requests.
pub open spec fn serving_ends_at(
    start: PongView,
    events: Seq<PongEventView>,
    index: int,
) -> bool {
    stage_before(start, events, index) == Some(PongStageView::Serving) && events[index] is Done
}

/// No socket is made at a path before the removal of a file there has been tried.
pub proof fn law_removed_before_bound(
    start: PongView,
    events: Seq<PongEventView>,
    path: Seq<char>,
)
    requires
        !(start.stage is Binding),
        pong_run(start, events) matches PongProgressView::Next(pong) && pong.stage
            == (PongStageView::Binding { path }),
    ensures
        exists|i: int|
            0 <= i < events.len() && #[trigger] stage_before(start, events, i) == Some(
                PongStageView::Removing { path },
            ),
    decreases events.len(),
{
    let shorter = events.drop_last();
    let before = pong_run(start, shorter)->Next_0;
    if before.stage is Binding {
        law_removed_before_bound(start, shorter, path);
        let k = choose|i: int|
            0 <= i < shorter.len() && #[trigger] stage_before(start, shorter, i) == Some(
                PongStageView::Removing { path },
            );
        assert(events.take(k) =~= shorter.take(k));
        assert(stage_before(start, events, k) == stage_before(start, shorter, k));
    } else {
        assert(events.take(events.len() - 1) =~= shorter);
        assert(stage_before(start, events, events.len() - 1) == Some(before.stage));
    }
}

/// Whether a removal succeeds or fails makes no difference to what follows.
pub proof fn law_removal_outcome_ignored(pong: PongView)
    requires
        pong.stage is Removing,
    ensures
        pong_step(pong, PongEventView::Done) == pong_step(pong, PongEventView::Failed),
{
}

/// A server ends as one that served only after it has answered requests.
pub proof fn law_served_after_serving(start: PongView, events: Seq<PongEventView>)
    requires
        !(start.stage is Joining),
        pong_run(start, events) == PongProgressView::Finished(PongOutcome::Served),
    ensures
        exists|i: int| 0 <= i < events.len() && #[trigger] serving_ends_at(start, events, i),
    decreases events.len(),
{
    let shorter = events.drop_last();
    match pong_run(start, shorter) {
        PongProgressView::Finished(_) => {
            law_served_after_serving(start, shorter);
            let k = choose|i: int|
                0 <= i < shorter.len() && #[trigger] serving_ends_at(start, shorter, i);
            assert(events.take(k) =~= shorter.take(k));
            assert(serving_ends_at(start, events, k));
        },
        PongProgressView::Next(before) => {
            if before.stage is Joining {
                lemma_joining_after_serving(start, shorter);
                let k = choose|i: int|
                0 <= i < shorter.len() && #[trigger] serving_ends_at(start, shorter, i);
                assert(events.take(k) =~= shorter.take(k));
                assert(serving_ends_at(start, events, k));
            } else {
                assert(events.take(events.len() - 1) =~= shorter);
                assert(serving_ends_at(start, events, events.len() - 1));
            }
        },
    }
}

/// A server waits for its relaying to end only once it has answered requests.
proof fn lemma_joining_after_serving(start: PongView, events: Seq<PongEventView>)
    requires
        !(start.stage is Joining),
        pong_run(start, events) matches PongProgressView::Next(pong) && pong.stage is Joining,
    ensures
        exists|i: int| 0 <= i < events.len() && #[trigger] serving_ends_at(start, events, i),
    decreases events.len(),
{
    let shorter = events.drop_last();
    let before = pong_run(start, shorter)->Next_0;
    if before.stage is Joining {
        lemma_joining_after_serving(start, shorter);
        let k = choose|i: int|
            0 <= i < shorter.len() && #[trigger] serving_ends_at(start, shorter, i);
        assert(events.take(k) =~= shorter.take(k));
        assert(serving_ends_at(start, events, k));
    } else {
        assert(events.take(events.len() - 1) =~= shorter);
        assert(serving_ends_at(start, events, events.len() - 1));
    }
}

/// Whether the event with the given index says that the relaying of the connection
/// has been started.
pub open spec fn forwarded_at(start: PongView, events: Seq<PongEventView>, index: int) -> bool {
    stage_before(start, events, index) matches Some(stage) && stage is Forwarding
        && events[index] is Done
}

/// A server for an accepted connection answers requests only once that connection
/// is being relayed to the socket it listens on.
pub proof fn law_forwarded_before_serving(events: Seq<PongEventView>)
    requires
        pong_run(connection_start(), events) matches PongProgressView::Next(pong) && (
        pong.stage is Subscribing || pong.stage is Serving || pong.stage is Joining),
    ensures
        exists|i: int|
            0 <= i < events.len() && #[trigger] forwarded_at(connection_start(), events, i),
    decreases events.len(),
{
    let start = connection_start();
    let shorter = events.drop_last();
    let before = pong_run(start, shorter)->Next_0;
    lemma_keeps_kind(start, shorter);
    if before.stage is Subscribing || before.stage is Serving || before.stage is Joining {
        law_forwarded_before_serving(shorter);
        let k = choose|i: int| 0 <= i < shorter.len() && #[trigger] forwarded_at(start, shorter, i);
        assert(events.take(k) =~= shorter.take(k));
        assert(forwarded_at(start, events, k));
    } else {
        assert(events.take(events.len() - 1) =~= shorter);
        assert(forwarded_at(start, events, events.len() - 1));
    }
}

/// Where the listening socket of a server comes from never changes.
proof fn lemma_keeps_kind(start: PongView, events: Seq<PongEventView>)
    ensures
        pong_run(start, events) matches PongProgressView::Next(pong) ==> pong.kind == start.kind,
    decreases events.len(),
{
    if events.len() > 0 {
        lemma_keeps_kind(start, events.drop_last());
    }
}

/// Whether a server is still busy with the socket that it was handed, or with the
/// search for a file: it has removed, bound, relayed and served nothing.
pub open spec fn is_early(stage: PongStageView) -> bool {
    ||| stage is Opening
    ||| stage is Unblocking
    ||| stage is Registering
    ||| stage is Searching
}

/// A server at an early stage has been at early stages only.
proof fn lemma_early(start: PongView, events: Seq<PongEventView>, index: int)
    requires
        pong_run(start, events) matches PongProgressView::Next(pong) && is_early(pong.stage),
        0 <= index <= events.len(),
    ensures
        stage_before(start, events, index) matches Some(stage) && is_early(stage),
    decreases events.len(),
{
    if index == events.len() {
        assert(events.take(index) =~= events);
    } else {
        let shorter = events.drop_last();
        lemma_early(start, shorter, index);
        assert(events.take(index) =~= shorter.take(index));
    }
}

/// Whether the event with the given index says that no file for the socket was found.
pub open spec fn search_fails_at(
    start: PongView,
    events: Seq<PongEventView>,
    index: int,
) -> bool {
    stage_before(start, events, index) == Some(PongStageView::Searching) && events[index] is Failed
}

/// A server ends for want of a socket file only if the search for one failed, and
/// until then it has removed, bound, relayed and served nothing.
pub proof fn law_no_socket_file(start: PongView, events: Seq<PongEventView>)
    requires
        pong_run(start, events) == PongProgressView::Finished(PongOutcome::NoSocketFile),
    ensures
        exists|i: int|
            0 <= i < events.len() && #[trigger] search_fails_at(start, events, i) && forall|j: int|
                0 <= j <= i ==> ((#[trigger] stage_before(start, events, j)) matches Some(stage)
                    && is_early(stage)),
    decreases events.len(),
{
    let shorter = events.drop_last();
    match pong_run(start, shorter) {
        PongProgressView::Finished(_) => {
            law_no_socket_file(start, shorter);
            let k = choose|i: int|
                0 <= i < shorter.len() && #[trigger] search_fails_at(start, shorter, i) && forall|
                    j: int,
                |
                    0 <= j <= i ==> ((#[trigger] stage_before(start, shorter, j)) matches Some(
                        stage,
                    ) && is_early(stage));
            assert(events.take(k) =~= shorter.take(k));
            assert(search_fails_at(start, events, k));
            assert forall|j: int| 0 <= j <= k implies ((#[trigger] stage_before(
                start,
                events,
                j,
            )) matches Some(stage) && is_early(stage)) by {
                assert(events.take(j) =~= shorter.take(j));
                assert(stage_before(start, shorter, j) == stage_before(start, events, j));
            }
        },
        PongProgressView::Next(before) => {
            let k = events.len() - 1;
            assert(events.take(k) =~= shorter);
            assert(search_fails_at(start, events, k));
            assert forall|j: int| 0 <= j <= k implies ((#[trigger] stage_before(
                start,
                events,
                j,
            )) matches Some(stage) && is_early(stage)) by {
                lemma_early(start, shorter, j);
                assert(events.take(j) =~= shorter.take(j));
            }
        },
    }
}

/// A search for a socket file that fails ends the server at once.
pub proof fn law_failed_search_ends(pong: PongView)
    requires
        pong.stage is Searching,
    ensures
        pong_step(pong, PongEventView::Failed) == PongProgressView::Finished(
            PongOutcome::NoSocketFile,
        ),
{
}

/// A server does with the socket that it is handed, which has descriptor 3, three
/// things in order: it takes it over, as what it was handed, sets it to non-blocking
/// mode and hands it to the runtime. The last two end it if they fail. A server that
/// was handed a connection then looks for a socket file; one that was handed a
/// listening socket subscribes.
pub proof fn law_handed_socket(pong: PongView)
    ensures
        pong_action(pong) matches PongActionView::AdoptListener { fd } ==> fd == 3 && pong.kind
            !is Connection,
        pong_action(pong) matches PongActionView::AdoptConnection { fd } ==> fd == 3 && pong.kind
            is Connection,
        pong_action(pong) is AdoptListener || pong_action(pong) is AdoptConnection ==> {
            &&& pong_step(pong, PongEventView::Done) matches PongProgressView::Next(next)
            &&& next.kind == pong.kind
            &&& pong_action(next) is SetNonblocking
        },
        pong_action(pong) is SetNonblocking ==> {
            &&& pong_step(pong, PongEventView::Failed) == PongProgressView::Finished(
                PongOutcome::NotUnblocked,
            )
            &&& pong_step(pong, PongEventView::Done) matches PongProgressView::Next(next)
            &&& next.kind == pong.kind
            &&& pong_action(next) is Register
        },
        pong_action(pong) is Register ==> {
            &&& pong_step(pong, PongEventView::Failed) == PongProgressView::Finished(
                PongOutcome::NotRegistered,
            )
            &&& pong_step(pong, PongEventView::Done) matches PongProgressView::Next(next)
            &&& next.kind == pong.kind
            &&& if pong.kind is Connection {
                pong_action(next) is FindSocketFile
            } else {
                pong_action(next) is Subscribe
            }
        },
{
}

/// The file that is found is the one that is removed, the one that is removed is the
/// one that is bound, whether there was one or not, and the one that is bound is the
/// one that the relaying of an accepted connection first connects to. A search or a
/// binding that fails ends the server.
pub proof fn law_file_is_handed_on(pong: PongView, path: Seq<char>)
    ensures
        pong_action(pong) is FindSocketFile ==> {
            &&& pong_step(pong, PongEventView::Failed) == PongProgressView::Finished(
                PongOutcome::NoSocketFile,
            )
            &&& pong_step(pong, PongEventView::Found { path }) matches PongProgressView::Next(next)
            &&& next.kind == pong.kind
            &&& pong_action(next) == (PongActionView::RemoveFile { path })
        },
        pong_action(pong) == (PongActionView::RemoveFile { path }) ==> {
            &&& pong_step(pong, PongEventView::Failed) == pong_step(pong, PongEventView::Done)
            &&& pong_step(pong, PongEventView::Done) matches PongProgressView::Next(next)
            &&& next.kind == pong.kind
            &&& pong_action(next) == (PongActionView::BindPrivate { path })
        },
        pong_action(pong) == (PongActionView::BindPrivate { path }) ==> {
            &&& pong_step(pong, PongEventView::Failed) == PongProgressView::Finished(
                PongOutcome::NotBound,
            )
            &&& pong_step(pong, PongEventView::Done) matches PongProgressView::Next(next)
            &&& next.kind == pong.kind
            &&& if pong.kind is Connection {
                &&& pong_action(next) matches PongActionView::Forward { relay }
                &&& crate::relay::relay_action(relay.target, relay.stage) == (
                crate::relay::RelayActionView::ConnectUnix { path })
            } else {
                pong_action(next) is Subscribe
            }
        },
{
}

/// A server whose relaying has been started subscribes, then answers requests, and
/// then is over; one that relays a connection first waits for the relaying to end,
/// however it does.
pub proof fn law_serving_order(pong: PongView)
    ensures
        pong_action(pong) is Forward ==> {
            &&& pong_step(pong, PongEventView::Done) matches PongProgressView::Next(next)
            &&& next.kind == pong.kind
            &&& pong_action(next) is Subscribe
        },
        pong_action(pong) is Subscribe ==> {
            &&& pong_step(pong, PongEventView::Done) matches PongProgressView::Next(next)
            &&& next.kind == pong.kind
            &&& pong_action(next) is Serve
        },
        pong_action(pong) is Serve && pong.kind is Connection ==> {
            &&& pong_step(pong, PongEventView::Done) matches PongProgressView::Next(next)
            &&& next.kind == pong.kind
            &&& pong_action(next) is JoinForward
        },
        pong_action(pong) is Serve && pong.kind !is Connection ==> pong_step(
            pong,
            PongEventView::Done,
        ) == PongProgressView::Finished(PongOutcome::Served),
        pong_action(pong) is JoinForward ==> pong_step(pong, PongEventView::Done)
            == PongProgressView::Finished(PongOutcome::Served) && pong_step(
            pong,
            PongEventView::Failed,
        ) == PongProgressView::Finished(PongOutcome::Served),
{
}

/// What does not answer the operation under way changes nothing: a file that nobody
/// looks for, a search that is said to be done without a file, and the failure of
/// what cannot fail.
pub proof fn law_unanswered_event_changes_nothing(pong: PongView, path: Seq<char>)
    ensures
        pong_action(pong) !is FindSocketFile ==> pong_step(pong, PongEventView::Found { path })
            == PongProgressView::Next(pong),
        pong_action(pong) is FindSocketFile ==> pong_step(pong, PongEventView::Done)
            == PongProgressView::Next(pong),
        pong_action(pong) is AdoptListener || pong_action(pong) is AdoptConnection || pong_action(
            pong,
        ) is Forward || pong_action(pong) is Subscribe || pong_action(pong) is Serve ==> pong_step(
            pong,
            PongEventView::Failed,
        ) == PongProgressView::Next(pong),
{
}

/// The operations of a server on the listening socket of the service manager, if all
/// of them succeed.
pub proof fn law_listener_operations(k: nat)
    requires
        k <= 5,
    ensures
        ({
            let events = Seq::new(k, |i: int| PongEventView::Done);
            if k == 5 {
                pong_run(listener_start(), events) == PongProgressView::Finished(
                    PongOutcome::Served,
                )
            } else {
                &&& pong_run(listener_start(), events) matches PongProgressView::Next(pong)
                &&& pong.kind is Listener
                &&& pong_action(pong) == if k == 0 {
                    PongActionView::AdoptListener { fd: 3 }
                } else if k == 1 {
                    PongActionView::SetNonblocking
                } else if k == 2 {
                    PongActionView::Register
                } else if k == 3 {
                    PongActionView::Subscribe
                } else {
                    PongActionView::Serve
                }
            }
        }),
    decreases k,
{
    if k > 0 {
        let before = (k - 1) as nat;
        law_listener_operations(before);
        let events = Seq::new(k, |i: int| PongEventView::Done);
        assert(events.drop_last() =~= Seq::new(before, |i: int| PongEventView::Done));
        assert(events.last() is Done);
    }
}

/// The operations of a server at a path, whatever comes of the removal and if all
/// others succeed: it removes and binds the very path that it was given.
pub proof fn law_file_operations(path: Seq<char>, removal: PongEventView, k: nat)
    requires
        k <= 4,
        removal is Done || removal is Failed,
    ensures
        ({
            let events = seq![removal, PongEventView::Done, PongEventView::Done, PongEventView::Done];
            if k == 4 {
                pong_run(file_start(path), events.take(k as int)) == PongProgressView::Finished(
                    PongOutcome::Served,
                )
            } else {
                &&& pong_run(file_start(path), events.take(k as int)) matches
                    PongProgressView::Next(pong)
                &&& pong.kind is File
                &&& pong_action(pong) == if k == 0 {
                    PongActionView::RemoveFile { path }
                } else if k == 1 {
                    PongActionView::BindPrivate { path }
                } else if k == 2 {
                    PongActionView::Subscribe
                } else {
                    PongActionView::Serve
                }
            }
        }),
    decreases k,
{
    let events = seq![removal, PongEventView::Done, PongEventView::Done, PongEventView::Done];
    if k > 0 {
        let before = (k - 1) as nat;
        law_file_operations(path, removal, before);
        assert(events.take(k as int).drop_last() =~= events.take(before as int));
        assert(events.take(k as int).last() == events[before as int]);
    }
}

/// The operations of a server for the accepted connection of the service manager,
/// whatever comes of the removal and if all others succeed: it removes and binds the
/// very path that was found, and what it relays the connection with connects to that
/// path first and copies then.
pub proof fn law_connection_operations(path: Seq<char>, removal: PongEventView, k: nat)
    requires
        k <= 10,
        removal is Done || removal is Failed,
    ensures
        ({
            let events = seq![
                PongEventView::Done,
                PongEventView::Done,
                PongEventView::Done,
                PongEventView::Found { path },
                removal,
                PongEventView::Done,
                PongEventView::Done,
                PongEventView::Done,
                PongEventView::Done,
                PongEventView::Done,
            ];
            if k == 10 {
                pong_run(connection_start(), events.take(k as int)) == PongProgressView::Finished(
                    PongOutcome::Served,
                )
            } else {
                &&& pong_run(connection_start(), events.take(k as int)) matches
                    PongProgressView::Next(pong)
                &&& pong.kind is Connection
                &&& if k == 6 {
                    &&& pong_action(pong) matches PongActionView::Forward { relay }
                    &&& crate::relay::relay_action(relay.target, relay.stage) == (
                    crate::relay::RelayActionView::ConnectUnix { path })
                    &&& crate::relay::relay_step(relay, Ok(())) matches
                        crate::relay::RelayProgressView::Next(copying)
                    &&& crate::relay::relay_action(copying.target, copying.stage) is Copy
                } else {
                    pong_action(pong) == if k == 0 {
                        PongActionView::AdoptConnection { fd: 3 }
                    } else if k == 1 {
                        PongActionView::SetNonblocking
                    } else if k == 2 {
                        PongActionView::Register
                    } else if k == 3 {
                        PongActionView::FindSocketFile
                    } else if k == 4 {
                        PongActionView::RemoveFile { path }
                    } else if k == 5 {
                        PongActionView::BindPrivate { path }
                    } else if k == 7 {
                        PongActionView::Subscribe
                    } else if k == 8 {
                        PongActionView::Serve
                    } else {
                        PongActionView::JoinForward
                    }
                }
            }
        }),
    decreases k,
{
    let events = seq![
        PongEventView::Done,
        PongEventView::Done,
        PongEventView::Done,
        PongEventView::Found { path },
        removal,
        PongEventView::Done,
        PongEventView::Done,
        PongEventView::Done,
        PongEventView::Done,
        PongEventView::Done,
    ];
    if k > 0 {
        let before = (k - 1) as nat;
        law_connection_operations(path, removal, before);
        assert(events.take(k as int).drop_last() =~= events.take(before as int));
        assert(events.take(k as int).last() == events[before as int]);
    }
}

/// Once a server for an accepted connection has been told the file that it looked
/// for, that file is the only one that it ever removes, binds or relays the connection
/// to, whatever happens.
pub proof fn law_connection_touches_found_file_only(
    before: Seq<PongEventView>,
    path: Seq<char>,
    after: Seq<PongEventView>,
)
    requires
        pong_run(connection_start(), before) matches PongProgressView::Next(searching)
            && pong_action(searching) is FindSocketFile,
    ensures
        pong_run(
            connection_start(),
            before.push(PongEventView::Found { path }) + after,
        ) matches PongProgressView::Next(pong) ==> match pong_action(pong) {
            PongActionView::RemoveFile { path: removed } => removed == path,
            PongActionView::BindPrivate { path: bound } => bound == path,
            PongActionView::Forward { relay } => crate::relay::relay_action(
                relay.target,
                relay.stage,
            ) == (crate::relay::RelayActionView::ConnectUnix { path }),
            PongActionView::Subscribe | PongActionView::Serve | PongActionView::JoinForward => true,
            _ => false,
        },
    decreases after.len(),
{
    let found = before.push(PongEventView::Found { path });
    if after.len() > 0 {
        law_connection_touches_found_file_only(before, path, after.drop_last());
        assert((found + after).drop_last() =~= found + after.drop_last());
        assert((found + after).last() == after.last());
    } else {
        assert(found + after =~= found);
        assert(found.drop_last() =~= before);
        assert(found.last() == PongEventView::Found { path });
    }
    lemma_keeps_kind(connection_start(), found + after);
}

/// What is told to a server, what it asks for and how it ends are taken as they are.
pub proof fn law_pong_shown<'a>(
    found: String,
    pong: Pong,
    outcome: PongOutcome,
    fd: i32,
    path: &'a str,
    relay: Relay,
)
    ensures
        PongEvent::Done@ == PongEventView::Done,
        PongEvent::Failed@ == PongEventView::Failed,
        (PongEvent::Found { path: found })@ == (PongEventView::Found { path: found@ }),
        PongProgress::Next(pong)@ == PongProgressView::Next(pong@),
        PongProgress::Finished(outcome)@ == PongProgressView::Finished(outcome),
        (PongAction::AdoptListener { fd })@ == (PongActionView::AdoptListener { fd }),
        (PongAction::AdoptConnection { fd })@ == (PongActionView::AdoptConnection { fd }),
        PongAction::SetNonblocking@ == PongActionView::SetNonblocking,
        PongAction::Register@ == PongActionView::Register,
        PongAction::FindSocketFile@ == PongActionView::FindSocketFile,
        (PongAction::RemoveFile { path })@ == (PongActionView::RemoveFile { path: path@ }),
        (PongAction::BindPrivate { path })@ == (PongActionView::BindPrivate { path: path@ }),
        (PongAction::Forward { relay })@ == (PongActionView::Forward { relay: relay@ }),
        PongAction::Subscribe@ == PongActionView::Subscribe,
        PongAction::Serve@ == PongActionView::Serve,
        PongAction::JoinForward@ == PongActionView::JoinForward,
{
}

} // verus!
