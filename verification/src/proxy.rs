//! The relaying commands: wait for a connection, relay it, wait for the next.
//!
//! One connection is relayed at a time. A request to shut down is heeded only while
//! the next connection is waited for; one that comes earlier stays pending until then.

use vstd::prelude::*;

use crate::cancel::Cancel;
use crate::helper::PublicError;
use crate::relay::RelayAction;
use crate::relay::RelayActionView;
use crate::relay::RelayStage;
use crate::relay::Target;
use crate::relay::TargetView;

verus! {

/// The file descriptor of a socket that the service manager hands over.
pub const ACTIVATION_FD: i32 = 3;

/// Where connections come from and where they are relayed to.
#[verifier::ext_equal]
pub enum RouteView {
    Inherited { target: TargetView },
    Tcp { host: Seq<char>, port: u16, target: TargetView },
    Unix { socket_file_path: Seq<char>, target: TargetView },
}

impl RouteView {
    /// Where connections are relayed to.
    pub open spec fn target(self) -> TargetView {
        match self {
            RouteView::Inherited { target } => target,
            RouteView::Tcp { target, .. } => target,
            RouteView::Unix { target, .. } => target,
        }
    }
}

/// What a proxy waits for.
#[derive(Debug, Clone, Copy, PartialEq, Eq, Structural)]
pub enum ProxyStage {
    /// The listening socket is being taken over or bound.
    Opening,
    /// Requests to shut down are being subscribed to.
    Subscribing,
    /// The socket is being set to non-blocking mode.
    Unblocking,
    /// The socket is being handed to the runtime.
    Registering,
    /// A connection, or a request to shut down, is being waited for.
    Accepting,
    /// A connection is being relayed.
    Relaying(RelayStage),
}

/// An operation of a proxy.
#[verifier::ext_equal]
pub enum ProxyActionView {
    Adopt { fd: i32 },
    BindTcp { host: Seq<char>, port: u16 },
    BindUnix { path: Seq<char> },
    Subscribe,
    SetNonblocking,
    Register,
    Accept,
    Relay(RelayActionView),
}

/// A proxy on a route.
#[verifier::ext_equal]
pub struct ProxyView {
    pub route: RouteView,
    pub stage: ProxyStage,
    /// Whether a request to shut down is pending.
    pub pending: bool,
}

/// Where a proxy stands once something has happened.
#[verifier::ext_equal]
pub enum ProxyProgressView {
    Next(ProxyView),
    Finished(Result<(), PublicError>),
}

/// What can happen to a proxy.
pub enum ProxyEvent {
    /// Its operation succeeded.
    Done,
    /// Its operation failed.
    Failed(std::io::Error),
    /// A wait for the request to shut down would end now.
    Shutdown(Cancel),
}

/// The operation that a proxy performs now.
pub open spec fn proxy_action(proxy: ProxyView) -> ProxyActionView {
    match proxy.stage {
        ProxyStage::Opening => match proxy.route {
            RouteView::Inherited { .. } => ProxyActionView::Adopt { fd: ACTIVATION_FD },
            RouteView::Tcp { host, port, .. } => ProxyActionView::BindTcp { host, port },
            RouteView::Unix { socket_file_path, .. } => ProxyActionView::BindUnix {
                path: socket_file_path,
            },
        },
        ProxyStage::Subscribing => ProxyActionView::Subscribe,
        ProxyStage::Unblocking => ProxyActionView::SetNonblocking,
        ProxyStage::Registering => ProxyActionView::Register,
        ProxyStage::Accepting => ProxyActionView::Accept,
        ProxyStage::Relaying(stage) => ProxyActionView::Relay(
            crate::relay::relay_action(proxy.route.target(), stage),
        ),
    }
}

/// The first stage of a proxy: one that binds a TCP port subscribes to requests to
/// shut down before it does anything else.
pub open spec fn first_stage(route: RouteView) -> ProxyStage {
    if route is Tcp {
        ProxyStage::Subscribing
    } else {
        ProxyStage::Opening
    }
}

/// The stage that follows an operation that succeeded.
pub open spec fn next_stage(route: RouteView, stage: ProxyStage) -> ProxyStage {
    match stage {
        ProxyStage::Opening => if route is Inherited {
            ProxyStage::Subscribing
        } else {
            ProxyStage::Unblocking
        },
        ProxyStage::Subscribing => match route {
            RouteView::Inherited { .. } => ProxyStage::Unblocking,
            RouteView::Tcp { .. } => ProxyStage::Opening,
            RouteView::Unix { .. } => ProxyStage::Accepting,
        },
        ProxyStage::Unblocking => ProxyStage::Registering,
        ProxyStage::Registering => if route is Unix {
            ProxyStage::Subscribing
        } else {
            ProxyStage::Accepting
        },
        ProxyStage::Accepting => ProxyStage::Relaying(RelayStage::Connecting),
        ProxyStage::Relaying(RelayStage::Connecting) => ProxyStage::Relaying(RelayStage::Copying),
        ProxyStage::Relaying(RelayStage::Copying) => ProxyStage::Accepting,
    }
}

/// Whether a proxy has subscribed to requests to shut down.
pub open spec fn is_subscribed(proxy: ProxyView) -> bool {
    match proxy.stage {
        ProxyStage::Opening => proxy.route is Tcp,
        ProxyStage::Subscribing => false,
        ProxyStage::Unblocking => !(proxy.route is Unix),
        ProxyStage::Registering => !(proxy.route is Unix),
        ProxyStage::Accepting => true,
        ProxyStage::Relaying(_) => true,
    }
}

/// A proxy that comes to a stage. Where it would wait for a connection, a pending
/// request to shut down ends it.
pub open spec fn proxy_at(proxy: ProxyView, stage: ProxyStage) -> ProxyProgressView {
    if proxy.pending && stage is Accepting {
        ProxyProgressView::Finished(Ok(()))
    } else {
        ProxyProgressView::Next(ProxyView { route: proxy.route, stage, pending: proxy.pending })
    }
}

/// What follows an event. A failure ends the proxy with its error. Whatever would end
/// a wait for the request to shut down, be it the request or not, ends the proxy while
/// it waits for a connection; while it is busy, the request stays pending; and before
/// it has subscribed to requests, it does not learn of them.
pub open spec fn proxy_step(proxy: ProxyView, event: ProxyEvent) -> ProxyProgressView {
    match event {
        ProxyEvent::Done => proxy_at(proxy, next_stage(proxy.route, proxy.stage)),
        ProxyEvent::Failed(error) => ProxyProgressView::Finished(Err(PublicError::IOError(error))),
        ProxyEvent::Shutdown(_) => if proxy.stage is Accepting {
            ProxyProgressView::Finished(Ok(()))
        } else {
            ProxyProgressView::Next(
                ProxyView {
                    route: proxy.route,
                    stage: proxy.stage,
                    pending: proxy.pending || is_subscribed(proxy),
                },
            )
        },
    }
}

/// Where connections come from and where they are relayed to.
enum Route {
    Inherited { target: Target },
    Tcp { host: String, port: u16, target: Target },
    Unix { socket_file_path: String, target: Target },
}

impl View for Route {
    type V = RouteView;

    closed spec fn view(&self) -> RouteView {
        match self {
            Route::Inherited { target } => RouteView::Inherited { target: target@ },
            Route::Tcp { host, port, target } => RouteView::Tcp {
                host: host@,
                port: *port,
                target: target@,
            },
            Route::Unix { socket_file_path, target } => RouteView::Unix {
                socket_file_path: socket_file_path@,
                target: target@,
            },
        }
    }
}

/// A proxy. Its action is to be performed, and what happens told to it.
pub struct Proxy {
    route: Route,
    stage: ProxyStage,
    pending: bool,
}

impl View for Proxy {
    type V = ProxyView;

    closed spec fn view(&self) -> ProxyView {
        ProxyView { route: self.route@, stage: self.stage, pending: self.pending }
    }
}

/// Where a proxy stands once something has happened.
pub enum ProxyProgress {
    /// Another operation is to be performed.
    Next(Proxy),
    /// The proxy was shut down, or the error that ended it.
    Finished(Result<(), PublicError>),
}

impl View for ProxyProgress {
    type V = ProxyProgressView;

    open spec fn view(&self) -> ProxyProgressView {
        match self {
            ProxyProgress::Next(proxy) => ProxyProgressView::Next(proxy@),
            ProxyProgress::Finished(outcome) => ProxyProgressView::Finished(*outcome),
        }
    }
}

/// An operation of a proxy.
pub enum ProxyAction<'a> {
    /// Take over the listening TCP socket with this file descriptor.
    Adopt { fd: i32 },
    /// Listen on a TCP port.
    BindTcp { host: &'a str, port: u16 },
    /// Listen on a Unix socket.
    BindUnix { path: &'a str },
    /// Subscribe to requests to shut down.
    Subscribe,
    /// Set the listening socket to non-blocking mode.
    SetNonblocking,
    /// Hand the listening socket to the runtime.
    Register,
    /// Wait for a connection or a request to shut down, whichever comes first.
    Accept,
    /// Relay the connection.
    Relay(RelayAction<'a>),
}

impl<'a> View for ProxyAction<'a> {
    type V = ProxyActionView;

    open spec fn view(&self) -> ProxyActionView {
        match self {
            ProxyAction::Adopt { fd } => ProxyActionView::Adopt { fd: *fd },
            ProxyAction::BindTcp { host, port } => ProxyActionView::BindTcp {
                host: host@,
                port: *port,
            },
            ProxyAction::BindUnix { path } => ProxyActionView::BindUnix { path: path@ },
            ProxyAction::Subscribe => ProxyActionView::Subscribe,
            ProxyAction::SetNonblocking => ProxyActionView::SetNonblocking,
            ProxyAction::Register => ProxyActionView::Register,
            ProxyAction::Accept => ProxyActionView::Accept,
            ProxyAction::Relay(action) => ProxyActionView::Relay(action@),
        }
    }
}

/// A proxy at the start of a route.
pub open spec fn proxy_start(route: RouteView) -> ProxyView {
    ProxyView { route, stage: first_stage(route), pending: false }
}

/// The route of a proxy from the socket of the service manager to a Unix socket.
pub open spec fn activation_route(socket_file_path: Seq<char>) -> RouteView {
    RouteView::Inherited { target: TargetView::Unix { socket_file_path } }
}

/// The route of a proxy from a TCP port to a Unix socket.
pub open spec fn tcp_route(host: Seq<char>, port: u16, socket_file_path: Seq<char>) -> RouteView {
    RouteView::Tcp { host, port, target: TargetView::Unix { socket_file_path } }
}

/// The route of a proxy from a Unix socket to a TCP port.
pub open spec fn unix_route(socket_file_path: Seq<char>, host: Seq<char>, port: u16) -> RouteView {
    RouteView::Unix { socket_file_path, target: TargetView::Tcp { host, port } }
}

/// Starts a proxy from the TCP socket of the service manager to the Unix socket at
/// `socket_file_path`.
pub fn socket_activation_proxy(socket_file_path: &str) -> (proxy: Proxy)
    ensures
        proxy@ == proxy_start(activation_route(socket_file_path@)),
{
    let target = Target::Unix { socket_file_path: String::from_str(socket_file_path) };
    Proxy { route: Route::Inherited { target }, stage: ProxyStage::Opening, pending: false }
}

/// Starts a proxy from a TCP port to the Unix socket at `socket_file_path`.
pub fn tcp_proxy(host: &str, port: u16, socket_file_path: &str) -> (proxy: Proxy)
    ensures
        proxy@ == proxy_start(tcp_route(host@, port, socket_file_path@)),
{
    let target = Target::Unix { socket_file_path: String::from_str(socket_file_path) };
    let route = Route::Tcp { host: String::from_str(host), port, target };
    Proxy { route, stage: ProxyStage::Subscribing, pending: false }
}

/// Starts a proxy from the Unix socket at `socket_file_path` to a TCP port.
pub fn unix_proxy(socket_file_path: &str, host: &str, port: u16) -> (proxy: Proxy)
    ensures
        proxy@ == proxy_start(unix_route(socket_file_path@, host@, port)),
{
    let target = Target::Tcp { host: String::from_str(host), port };
    let route = Route::Unix { socket_file_path: String::from_str(socket_file_path), target };
    Proxy { route, stage: ProxyStage::Opening, pending: false }
}

impl Proxy {
    /// The operation to perform now.
    pub fn action(&self) -> (action: ProxyAction<'_>)
        ensures
            action@ == proxy_action(self@),
    {
        match self.stage {
            ProxyStage::Opening => match &self.route {
                Route::Inherited { .. } => ProxyAction::Adopt { fd: ACTIVATION_FD },
                Route::Tcp { host, port, .. } => ProxyAction::BindTcp {
                    host: host.as_str(),
                    port: *port,
                },
                Route::Unix { socket_file_path, .. } => ProxyAction::BindUnix {
                    path: socket_file_path.as_str(),
                },
            },
            ProxyStage::Subscribing => ProxyAction::Subscribe,
            ProxyStage::Unblocking => ProxyAction::SetNonblocking,
            ProxyStage::Registering => ProxyAction::Register,
            ProxyStage::Accepting => ProxyAction::Accept,
            ProxyStage::Relaying(stage) => {
                let target = match &self.route {
                    Route::Inherited { target } => target,
                    Route::Tcp { target, .. } => target,
                    Route::Unix { target, .. } => target,
                };
                ProxyAction::Relay(target.action(stage))
            },
        }
    }

    /// The stage that follows when the current operation succeeds.
    fn next_stage(&self) -> (stage: ProxyStage)
        ensures
            stage == next_stage(self@.route, self@.stage),
    {
        match self.stage {
            ProxyStage::Opening => match self.route {
                Route::Inherited { .. } => ProxyStage::Subscribing,
                _ => ProxyStage::Unblocking,
            },
            ProxyStage::Subscribing => match self.route {
                Route::Inherited { .. } => ProxyStage::Unblocking,
                Route::Tcp { .. } => ProxyStage::Opening,
                Route::Unix { .. } => ProxyStage::Accepting,
            },
            ProxyStage::Unblocking => ProxyStage::Registering,
            ProxyStage::Registering => match self.route {
                Route::Unix { .. } => ProxyStage::Subscribing,
                _ => ProxyStage::Accepting,
            },
            ProxyStage::Accepting => ProxyStage::Relaying(RelayStage::Connecting),
            ProxyStage::Relaying(RelayStage::Connecting) => ProxyStage::Relaying(
                RelayStage::Copying,
            ),
            ProxyStage::Relaying(RelayStage::Copying) => ProxyStage::Accepting,
        }
    }

    /// Whether the proxy has subscribed to requests to shut down.
    fn is_subscribed(&self) -> (subscribed: bool)
        ensures
            subscribed == is_subscribed(self@),
    {
        match self.stage {
            ProxyStage::Opening => match self.route {
                Route::Tcp { .. } => true,
                _ => false,
            },
            ProxyStage::Subscribing => false,
            ProxyStage::Unblocking | ProxyStage::Registering => match self.route {
                Route::Unix { .. } => false,
                _ => true,
            },
            ProxyStage::Accepting | ProxyStage::Relaying(_) => true,
        }
    }

    /// Goes on from what happened.
    pub fn advance(self, event: ProxyEvent) -> (progress: ProxyProgress)
        ensures
            progress@ == proxy_step(self@, event),
    {
        match event {
            ProxyEvent::Done => match self.next_stage() {
                ProxyStage::Accepting if self.pending => ProxyProgress::Finished(Ok(())),
                stage => ProxyProgress::Next(
                    Proxy { route: self.route, stage, pending: self.pending },
                ),
            },
            ProxyEvent::Failed(error) => ProxyProgress::Finished(Err(PublicError::from(error))),
            ProxyEvent::Shutdown(_) => match self.stage {
                ProxyStage::Accepting => ProxyProgress::Finished(Ok(())),
                stage => {
                    let pending = self.pending || self.is_subscribed();
                    ProxyProgress::Next(Proxy { route: self.route, stage, pending })
                },
            },
        }
    }
}

/// Where a proxy stands after a number of events.
pub open spec fn proxy_run(proxy: ProxyView, events: Seq<ProxyEvent>) -> ProxyProgressView
    decreases events.len(),
{
    if events.len() == 0 {
        ProxyProgressView::Next(proxy)
    } else {
        match proxy_run(proxy, events.drop_last()) {
            ProxyProgressView::Next(next) => proxy_step(next, events.last()),
            done => done,
        }
    }
}

/// A number of operations that all succeed.
pub open spec fn all_done(len: nat) -> Seq<ProxyEvent> {
    Seq::new(len, |i: int| ProxyEvent::Done)
}

/// What a proxy does before it waits for its first connection, in order.
pub open spec fn setup(route: RouteView) -> Seq<ProxyStage> {
    match route {
        RouteView::Inherited { .. } => seq![
            ProxyStage::Opening,
            ProxyStage::Subscribing,
            ProxyStage::Unblocking,
            ProxyStage::Registering,
        ],
        RouteView::Tcp { .. } => seq![
            ProxyStage::Subscribing,
            ProxyStage::Opening,
            ProxyStage::Unblocking,
            ProxyStage::Registering,
        ],
        RouteView::Unix { .. } => seq![
            ProxyStage::Opening,
            ProxyStage::Unblocking,
            ProxyStage::Registering,
            ProxyStage::Subscribing,
        ],
    }
}

/// What a proxy does for each connection, in order.
pub open spec fn cycle() -> Seq<ProxyStage> {
    seq![
        ProxyStage::Accepting,
        ProxyStage::Relaying(RelayStage::Connecting),
        ProxyStage::Relaying(RelayStage::Copying),
    ]
}

/// The stage of a proxy after `n` operations that all succeeded: its setup, in
/// order, and then the cycle, over and over.
pub open spec fn stage_after(route: RouteView, n: nat) -> ProxyStage {
    if n < 4 {
        setup(route)[n as int]
    } else {
        cycle()[(n - 4) % 3]
    }
}

/// One operation leads from one stage of the order to the next.
proof fn lemma_stage_after(route: RouteView, n: nat)
    ensures
        next_stage(route, stage_after(route, n)) == stage_after(route, n + 1),
{
    assert(setup(route).len() == 4);
    assert(cycle().len() == 3);
    if n < 4 {
        assert(n == 0 || n == 1 || n == 2 || n == 3);
    } else {
        lemma_next_in_cycle(n - 4);
        let at = (n - 4) % 3;
        assert(at == 0 || at == 1 || at == 2);
    }
}

/// The places of a cycle of three follow each other, and the first follows the last.
proof fn lemma_next_in_cycle(m: int)
    ensures
        (m + 1) % 3 == if m % 3 == 2 {
            0
        } else {
            m % 3 + 1
        },
{
}

/// A proxy whose operations all succeed does its setup once, in the order of its
/// route, and then goes through the same cycle for one connection after another.
pub proof fn law_proxy_order(route: RouteView, n: nat)
    ensures
        proxy_run(proxy_start(route), all_done(n)) == ProxyProgressView::Next(
            ProxyView { route, stage: stage_after(route, n), pending: false },
        ),
    decreases n,
{
    if n > 0 {
        let before = (n - 1) as nat;
        law_proxy_order(route, before);
        lemma_stage_after(route, before);
        assert(all_done(n).drop_last() =~= all_done(before));
        assert(all_done(n).last() is Done);
    }
}

/// The route of a proxy never changes, so every connection is relayed to the target
/// that the proxy was started with.
pub proof fn law_proxy_keeps_route(proxy: ProxyView, events: Seq<ProxyEvent>)
    ensures
        proxy_run(proxy, events) matches ProxyProgressView::Next(next) ==> next.route
            == proxy.route,
    decreases events.len(),
{
    if events.len() > 0 {
        law_proxy_keeps_route(proxy, events.drop_last());
    }
}

/// The socket of the service manager is taken over once at most, so that it has one
/// owner only: by a proxy on that route, before any of its operations has succeeded.
pub proof fn law_descriptor_taken_over_once(route: RouteView, events: Seq<ProxyEvent>)
    requires
        proxy_run(proxy_start(route), events) matches ProxyProgressView::Next(proxy)
            && proxy_action(proxy) is Adopt,
    ensures
        route is Inherited,
        forall|i: int| 0 <= i < events.len() ==> !((#[trigger] events[i]) is Done),
    decreases events.len(),
{
    law_proxy_keeps_route(proxy_start(route), events);
    if events.len() > 0 {
        let shorter = events.drop_last();
        law_proxy_keeps_route(proxy_start(route), shorter);
        law_descriptor_taken_over_once(route, shorter);
        assert forall|i: int| 0 <= i < events.len() implies !((#[trigger] events[i]) is Done) by {
            if i < shorter.len() {
                assert(shorter[i] == events[i]);
            }
        }
    }
}

/// A proxy that goes on has seen no failure.
proof fn lemma_no_failure(proxy: ProxyView, events: Seq<ProxyEvent>)
    requires
        proxy_run(proxy, events) is Next,
    ensures
        forall|i: int| 0 <= i < events.len() ==> !((#[trigger] events[i]) is Failed),
    decreases events.len(),
{
    if events.len() > 0 {
        let shorter = events.drop_last();
        lemma_no_failure(proxy, shorter);
        assert forall|i: int| 0 <= i < events.len() implies !((#[trigger] events[i]) is Failed) by {
            if i < shorter.len() {
                assert(shorter[i] == events[i]);
            }
        }
    }
}

/// A proxy ends with the event that follows some run of events through which it
/// went on.
proof fn lemma_proxy_end(proxy: ProxyView, events: Seq<ProxyEvent>) -> (end: int)
    requires
        proxy_run(proxy, events) is Finished,
    ensures
        0 <= end < events.len(),
        proxy_run(proxy, events.take(end)) matches ProxyProgressView::Next(next) && proxy_step(
            next,
            events[end],
        ) == proxy_run(proxy, events),
        forall|i: int| 0 <= i < end ==> !((#[trigger] events[i]) is Failed),
    decreases events.len(),
{
    let shorter = events.drop_last();
    if proxy_run(proxy, shorter) is Next {
        let end = events.len() - 1;
        assert(events.take(end) =~= shorter);
        lemma_no_failure(proxy, shorter);
        assert forall|i: int| 0 <= i < end implies !((#[trigger] events[i]) is Failed) by {
            assert(shorter[i] == events[i]);
        }
        end
    } else {
        let end = lemma_proxy_end(proxy, shorter);
        assert(events.take(end) =~= shorter.take(end));
        assert forall|i: int| 0 <= i < end implies !((#[trigger] events[i]) is Failed) by {
            assert(shorter[i] == events[i]);
        }
        end
    }
}

/// Whether the event with the given index is a request to shut down that the proxy
/// learns of.
pub open spec fn learns_at(proxy: ProxyView, events: Seq<ProxyEvent>, index: int) -> bool {
    &&& events[index] is Shutdown
    &&& proxy_run(proxy, events.take(index)) matches ProxyProgressView::Next(next)
        && is_subscribed(next)
}

/// A request to shut down is pending only if the proxy has learned of one.
proof fn lemma_pending(proxy: ProxyView, events: Seq<ProxyEvent>) -> (at: int)
    requires
        !proxy.pending,
        proxy_run(proxy, events) matches ProxyProgressView::Next(next) && next.pending,
    ensures
        0 <= at < events.len(),
        learns_at(proxy, events, at),
    decreases events.len(),
{
    let shorter = events.drop_last();
    if proxy_run(proxy, shorter)->Next_0.pending {
        let at = lemma_pending(proxy, shorter);
        assert(events.take(at) =~= shorter.take(at));
        at
    } else {
        assert(events.take(events.len() - 1) =~= shorter);
        events.len() - 1
    }
}

/// A proxy ends well only if it has learned of a request to shut down, and nothing has
/// failed before it ends.
pub proof fn law_proxy_ends_well(proxy: ProxyView, events: Seq<ProxyEvent>)
    requires
        !proxy.pending,
        proxy_run(proxy, events) == ProxyProgressView::Finished(Ok(())),
    ensures
        exists|end: int, i: int|
            #![trigger events[end], learns_at(proxy, events, i)]
            0 <= i <= end < events.len() && learns_at(proxy, events, i) && proxy_run(
                proxy,
                events.take(end),
            ) is Next && forall|j: int| 0 <= j <= end ==> !((#[trigger] events[j]) is Failed),
{
    let end = lemma_proxy_end(proxy, events);
    assert(!(events[end] is Failed));
    if events[end] is Shutdown {
        assert(learns_at(proxy, events, end));
    } else {
        let i = lemma_pending(proxy, events.take(end));
        assert(events.take(end).take(i) =~= events.take(i));
        assert(learns_at(proxy, events, i));
    }
}

/// A proxy that fails does so with the error of the first of its operations that
/// failed.
pub proof fn law_proxy_error(proxy: ProxyView, events: Seq<ProxyEvent>, error: PublicError)
    requires
        proxy_run(proxy, events) == ProxyProgressView::Finished(Err(error)),
    ensures
        error matches PublicError::IOError(inner) && exists|i: int|
            0 <= i < events.len() && #[trigger] events[i] == ProxyEvent::Failed(inner) && forall|
                j: int,
            |
                0 <= j < i ==> !((#[trigger] events[j]) is Failed),
{
    let end = lemma_proxy_end(proxy, events);
    assert(events[end] == ProxyEvent::Failed(error->IOError_0));
}

/// A request to shut down that comes before a proxy has subscribed to requests makes
/// no difference to what follows.
pub proof fn law_shutdown_before_subscribing(
    proxy: ProxyView,
    cancel: Cancel,
    events: Seq<ProxyEvent>,
)
    requires
        !is_subscribed(proxy),
    ensures
        proxy_run(proxy, seq![ProxyEvent::Shutdown(cancel)] + events) == proxy_run(proxy, events),
    decreases events.len(),
{
    let longer = seq![ProxyEvent::Shutdown(cancel)] + events;
    if events.len() == 0 {
        assert(longer.drop_last() =~= events);
    } else {
        law_shutdown_before_subscribing(proxy, cancel, events.drop_last());
        assert(longer.drop_last() =~= seq![ProxyEvent::Shutdown(cancel)] + events.drop_last());
    }
}

/// A request to shut down that finds a proxy busy lets it go on with what it does, and
/// stays pending.
pub proof fn law_shutdown_stays_pending(proxy: ProxyView, cancel: Cancel)
    requires
        is_subscribed(proxy),
        !(proxy.stage is Accepting),
    ensures
        proxy_step(proxy, ProxyEvent::Shutdown(cancel)) == ProxyProgressView::Next(
            ProxyView { route: proxy.route, stage: proxy.stage, pending: true },
        ),
{
}

/// A busy proxy with a pending request to shut down never waits for a connection again.
pub proof fn law_pending_never_accepts(proxy: ProxyView, events: Seq<ProxyEvent>)
    requires
        proxy.pending,
        !(proxy.stage is Accepting),
    ensures
        proxy_run(proxy, events) matches ProxyProgressView::Next(next) ==> next.pending && !(
        next.stage is Accepting),
    decreases events.len(),
{
    if events.len() > 0 {
        law_pending_never_accepts(proxy, events.drop_last());
    }
}

/// How many operations a busy proxy performs before it would wait for a connection.
pub open spec fn operations_left(route: RouteView, stage: ProxyStage) -> nat {
    match stage {
        ProxyStage::Accepting => 0,
        ProxyStage::Relaying(RelayStage::Copying) => 1,
        ProxyStage::Relaying(RelayStage::Connecting) => 2,
        ProxyStage::Subscribing => match route {
            RouteView::Inherited { .. } => 3,
            RouteView::Tcp { .. } => 4,
            RouteView::Unix { .. } => 1,
        },
        ProxyStage::Opening => if route is Tcp {
            3
        } else {
            4
        },
        ProxyStage::Unblocking => if route is Unix {
            3
        } else {
            2
        },
        ProxyStage::Registering => if route is Unix {
            2
        } else {
            1
        },
    }
}

/// A pending request to shut down ends a proxy well, as soon as the operations that it
/// is busy with have succeeded and not before.
pub proof fn law_pending_ends_at_next_wait(proxy: ProxyView, n: nat)
    requires
        proxy.pending,
        !(proxy.stage is Accepting),
    ensures
        n < operations_left(proxy.route, proxy.stage) ==> (proxy_run(
            proxy,
            all_done(n),
        ) matches ProxyProgressView::Next(next) && next.route == proxy.route && next.pending
            && operations_left(next.route, next.stage) == operations_left(proxy.route, proxy.stage)
            - n),
        n >= operations_left(proxy.route, proxy.stage) ==> proxy_run(proxy, all_done(n))
            == ProxyProgressView::Finished(Ok(())),
    decreases n,
{
    if n > 0 {
        let before = (n - 1) as nat;
        law_pending_ends_at_next_wait(proxy, before);
        assert(all_done(n).drop_last() =~= all_done(before));
        assert(all_done(n).last() is Done);
    }
}

/// While a connection is being relayed, the proxy goes on as a relay of that
/// connection does; when the relay is over, it comes to wait for the next connection.
pub proof fn law_proxy_relays(proxy: ProxyView, stage: RelayStage, error: std::io::Error)
    requires
        proxy.stage == ProxyStage::Relaying(stage),
    ensures
        proxy_step(proxy, ProxyEvent::Done) == proxy_at(
            proxy,
            match crate::relay::relay_step(
                crate::relay::RelayView { target: proxy.route.target(), stage },
                Ok(()),
            ) {
                crate::relay::RelayProgressView::Next(relay) => ProxyStage::Relaying(relay.stage),
                crate::relay::RelayProgressView::Finished(_) => ProxyStage::Accepting,
            },
        ),
        crate::relay::relay_step(
            crate::relay::RelayView { target: proxy.route.target(), stage },
            Err(error),
        ) matches crate::relay::RelayProgressView::Finished(outcome) && proxy_step(
            proxy,
            ProxyEvent::Failed(error),
        ) == ProxyProgressView::Finished(outcome),
{
}

/// How many operations succeeded.
pub open spec fn done_count(events: Seq<ProxyEvent>) -> nat
    decreases events.len(),
{
    if events.len() == 0 {
        0
    } else if events.last() is Done {
        done_count(events.drop_last()) + 1
    } else {
        done_count(events.drop_last())
    }
}

/// Whether a request to shut down came in once at least `from` operations had succeeded.
pub open spec fn requested_after(events: Seq<ProxyEvent>, from: nat) -> bool {
    exists|i: int|
        0 <= i < events.len() && (#[trigger] events[i]) is Shutdown && done_count(events.take(i))
            >= from
}

/// One more event adds a request, if it is one that comes late enough.
proof fn lemma_requested_after(events: Seq<ProxyEvent>, from: nat)
    requires
        events.len() > 0,
    ensures
        requested_after(events, from) <==> requested_after(events.drop_last(), from)
            || events.last() is Shutdown && done_count(events.drop_last()) >= from,
{
    let shorter = events.drop_last();
    let last = events.len() - 1;
    assert(events.take(last) =~= shorter);
    assert(events[last] == events.last());
    if requested_after(shorter, from) {
        let i = choose|i: int|
            0 <= i < shorter.len() && (#[trigger] shorter[i]) is Shutdown && done_count(
                shorter.take(i),
            ) >= from;
        assert(events.take(i) =~= shorter.take(i));
        assert(events[i] == shorter[i]);
    }
    if requested_after(events, from) {
        let i = choose|i: int|
            0 <= i < events.len() && (#[trigger] events[i]) is Shutdown && done_count(
                events.take(i),
            ) >= from;
        if i < last {
            assert(events.take(i) =~= shorter.take(i));
            assert(events[i] == shorter[i]);
        }
    }
}

/// How many operations succeed before a proxy on a route has subscribed.
pub open spec fn subscribes_after(route: RouteView) -> nat {
    match route {
        RouteView::Inherited { .. } => 2,
        RouteView::Tcp { .. } => 1,
        RouteView::Unix { .. } => 4,
    }
}

/// A proxy has subscribed as soon as that operation has succeeded.
proof fn lemma_subscribed(route: RouteView, n: nat, pending: bool)
    ensures
        is_subscribed(ProxyView { route, stage: stage_after(route, n), pending }) <==> n
            >= subscribes_after(route),
        stage_after(route, n) is Accepting <==> n >= 4 && (n - 4) % 3 == 0,
{
    assert(setup(route).len() == 4);
    assert(cycle().len() == 3);
    if n < 4 {
        assert(n == 0 || n == 1 || n == 2 || n == 3);
    } else {
        let at = (n - 4) % 3;
        assert(at == 0 || at == 1 || at == 2);
    }
}

/// Where a proxy stands, told from its history alone.
proof fn lemma_proxy_state(route: RouteView, events: Seq<ProxyEvent>)
    ensures
        proxy_run(proxy_start(route), events) matches ProxyProgressView::Next(proxy) ==> {
            &&& proxy.route == route
            &&& proxy.stage == stage_after(route, done_count(events))
            &&& proxy.pending <==> requested_after(events, subscribes_after(route))
            &&& !(proxy.pending && proxy.stage is Accepting)
        },
    decreases events.len(),
{
    if events.len() > 0 {
        let shorter = events.drop_last();
        let from = subscribes_after(route);
        lemma_proxy_state(route, shorter);
        lemma_requested_after(events, from);
        lemma_stage_after(route, done_count(shorter));
        match proxy_run(proxy_start(route), shorter) {
            ProxyProgressView::Next(before) => {
                lemma_subscribed(route, done_count(shorter), before.pending);
            },
            _ => {},
        }
    } else {
        assert(setup(route).len() == 4);
    }
}

/// What a proxy on the socket of the service manager does after `n` operations have
/// succeeded, whatever else has happened: it takes over descriptor 3, subscribes, sets
/// the socket up, and then accepts, connects to the Unix socket and copies, in turn.
pub proof fn law_activation_proxy_operations(
    socket_file_path: Seq<char>,
    events: Seq<ProxyEvent>,
)
    ensures
        proxy_run(proxy_start(activation_route(socket_file_path)), events) matches
            ProxyProgressView::Next(proxy) ==> proxy_action(proxy) == ({
            let n = done_count(events);
            if n == 0 {
                ProxyActionView::Adopt { fd: 3 }
            } else if n == 1 {
                ProxyActionView::Subscribe
            } else if n == 2 {
                ProxyActionView::SetNonblocking
            } else if n == 3 {
                ProxyActionView::Register
            } else if (n - 4) % 3 == 0 {
                ProxyActionView::Accept
            } else if (n - 4) % 3 == 1 {
                ProxyActionView::Relay(RelayActionView::ConnectUnix { path: socket_file_path })
            } else {
                ProxyActionView::Relay(RelayActionView::Copy)
            }
        }),
{
    let route = activation_route(socket_file_path);
    lemma_proxy_state(route, events);
    lemma_stages(route, done_count(events));
}

/// What a proxy on a TCP port does after `n` operations have succeeded, whatever else
/// has happened: it subscribes, binds the host and port asked for, sets the socket up,
/// and then accepts, connects to the Unix socket and copies, in turn.
pub proof fn law_tcp_proxy_operations(
    host: Seq<char>,
    port: u16,
    socket_file_path: Seq<char>,
    events: Seq<ProxyEvent>,
)
    ensures
        proxy_run(proxy_start(tcp_route(host, port, socket_file_path)), events) matches
            ProxyProgressView::Next(proxy) ==> proxy_action(proxy) == ({
            let n = done_count(events);
            if n == 0 {
                ProxyActionView::Subscribe
            } else if n == 1 {
                ProxyActionView::BindTcp { host, port }
            } else if n == 2 {
                ProxyActionView::SetNonblocking
            } else if n == 3 {
                ProxyActionView::Register
            } else if (n - 4) % 3 == 0 {
                ProxyActionView::Accept
            } else if (n - 4) % 3 == 1 {
                ProxyActionView::Relay(RelayActionView::ConnectUnix { path: socket_file_path })
            } else {
                ProxyActionView::Relay(RelayActionView::Copy)
            }
        }),
{
    let route = tcp_route(host, port, socket_file_path);
    lemma_proxy_state(route, events);
    lemma_stages(route, done_count(events));
}

/// What a proxy on a Unix socket does after `n` operations have succeeded, whatever
/// else has happened: it binds the path asked for, sets the socket up, subscribes, and
/// then accepts, connects to the host and port asked for and copies, in turn.
pub proof fn law_unix_proxy_operations(
    socket_file_path: Seq<char>,
    host: Seq<char>,
    port: u16,
    events: Seq<ProxyEvent>,
)
    ensures
        proxy_run(proxy_start(unix_route(socket_file_path, host, port)), events) matches
            ProxyProgressView::Next(proxy) ==> proxy_action(proxy) == ({
            let n = done_count(events);
            if n == 0 {
                ProxyActionView::BindUnix { path: socket_file_path }
            } else if n == 1 {
                ProxyActionView::SetNonblocking
            } else if n == 2 {
                ProxyActionView::Register
            } else if n == 3 {
                ProxyActionView::Subscribe
            } else if (n - 4) % 3 == 0 {
                ProxyActionView::Accept
            } else if (n - 4) % 3 == 1 {
                ProxyActionView::Relay(
                    RelayActionView::ConnectTcp {
                        url: host + seq![':'] + crate::decimal::decimal(port as nat),
                    },
                )
            } else {
                ProxyActionView::Relay(RelayActionView::Copy)
            }
        }),
{
    reveal_strlit(":");
    assert(":"@ =~= seq![':']);
    let route = unix_route(socket_file_path, host, port);
    lemma_proxy_state(route, events);
    lemma_stages(route, done_count(events));
}

/// The stages of a proxy, one by one.
proof fn lemma_stages(route: RouteView, n: nat)
    ensures
        n < 4 ==> stage_after(route, n) == setup(route)[n as int],
        n >= 4 && (n - 4) % 3 == 0 ==> stage_after(route, n) is Accepting,
        n >= 4 && (n - 4) % 3 == 1 ==> stage_after(route, n) == ProxyStage::Relaying(
            RelayStage::Connecting,
        ),
        n >= 4 && (n - 4) % 3 == 2 ==> stage_after(route, n) == ProxyStage::Relaying(
            RelayStage::Copying,
        ),
        setup(route).len() == 4,
{
    assert(setup(route).len() == 4);
    assert(cycle().len() == 3);
}

/// What the next event does to a proxy that goes on, told from its history: a failure
/// ends it with its error; a request to shut down ends it if it waits for a connection;
/// a success ends it if a request has come in since it subscribed and it would wait
/// for a connection now. In every other case it goes on. It waits for a connection
/// after four successes and after every three more, and it has subscribed after two,
/// one or four successes, on the socket of the service manager, a TCP port or a Unix
/// socket.
pub proof fn law_proxy_next(
    route: RouteView,
    events: Seq<ProxyEvent>,
    error: std::io::Error,
    cancel: Cancel,
)
    requires
        proxy_run(proxy_start(route), events) is Next,
    ensures
        ({
            let n = done_count(events);
            let start = proxy_start(route);
            let requested = requested_after(
                events,
                if route is Inherited {
                    2
                } else if route is Tcp {
                    1
                } else {
                    4
                },
            );
            &&& proxy_run(start, events.push(ProxyEvent::Failed(error)))
                == ProxyProgressView::Finished(Err(PublicError::IOError(error)))
            &&& if n >= 4 && (n - 4) % 3 == 0 {
                proxy_run(start, events.push(ProxyEvent::Shutdown(cancel)))
                    == ProxyProgressView::Finished(Ok(()))
            } else {
                proxy_run(start, events.push(ProxyEvent::Shutdown(cancel))) is Next
            }
            &&& if requested && n >= 3 && (n - 3) % 3 == 0 {
                proxy_run(start, events.push(ProxyEvent::Done)) == ProxyProgressView::Finished(
                    Ok(()),
                )
            } else {
                proxy_run(start, events.push(ProxyEvent::Done)) is Next
            }
        }),
{
    let n = done_count(events);
    let start = proxy_start(route);
    lemma_proxy_state(route, events);
    lemma_stage_after(route, n);
    lemma_subscribed(route, n, false);
    lemma_subscribed(route, n + 1, false);
    assert(events.push(ProxyEvent::Failed(error)).drop_last() =~= events);
    assert(events.push(ProxyEvent::Shutdown(cancel)).drop_last() =~= events);
    assert(events.push(ProxyEvent::Done).drop_last() =~= events);
    assert(events.push(ProxyEvent::Failed(error)).last() == ProxyEvent::Failed(error));
    assert(events.push(ProxyEvent::Shutdown(cancel)).last() is Shutdown);
    assert(events.push(ProxyEvent::Done).last() is Done);
}

/// What a proxy asks for and how it ends are taken as they are.
pub proof fn law_proxy_shown<'a>(
    proxy: Proxy,
    outcome: Result<(), PublicError>,
    fd: i32,
    host: &'a str,
    port: u16,
    path: &'a str,
    action: RelayAction<'a>,
)
    ensures
        ProxyProgress::Next(proxy)@ == ProxyProgressView::Next(proxy@),
        ProxyProgress::Finished(outcome)@ == ProxyProgressView::Finished(outcome),
        (ProxyAction::Adopt { fd })@ == (ProxyActionView::Adopt { fd }),
        (ProxyAction::BindTcp { host, port })@ == (ProxyActionView::BindTcp { host: host@, port }),
        (ProxyAction::BindUnix { path })@ == (ProxyActionView::BindUnix { path: path@ }),
        ProxyAction::Subscribe@ == ProxyActionView::Subscribe,
        ProxyAction::SetNonblocking@ == ProxyActionView::SetNonblocking,
        ProxyAction::Register@ == ProxyActionView::Register,
        ProxyAction::Accept@ == ProxyActionView::Accept,
        ProxyAction::Relay(action)@ == ProxyActionView::Relay(action@),
{
}

} // verus!
