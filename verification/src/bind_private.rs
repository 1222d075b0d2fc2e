//! Unix socket listeners that only the current user can reach.
//!
//! Binding a socket creates its file. Where the platform lets the mode of a socket be
//! set, it passes on to that file, so it is set before the socket is bound. Elsewhere
//! the mode of the file is set once it is there and before the socket listens: until
//! it does, it refuses every connection. Either way nobody else ever gets in.

use vstd::prelude::*;

verus! {

/// The bit of a file mode that lets the owner read.
pub const OWNER_READ: u32 = 0o400;

/// The bit of a file mode that lets the owner write.
pub const OWNER_WRITE: u32 = 0o200;

/// The mode of a private socket: its owner may read and write, and nobody may do
/// anything else.
pub const OWNER_ONLY: u32 = 0o600;

/// How many connections may wait on a private socket.
pub const BACKLOG: i32 = 1024;

/// A path of fewer bytes than this fits a Unix socket address on every platform that
/// `libc` knows.
pub const PATH_FITS_BELOW: usize = 104;

/// A path of more bytes than this fits a Unix socket address on no platform that
/// `libc` knows.
pub const PATH_FITS_UP_TO: usize = 1023;

/// `socket2::SockAddr`, an opaque value that is only carried along.
#[verifier::external_type_specification]
#[verifier::external_body]
pub struct ExSockAddr(socket2::SockAddr);

/// The address that `socket2::SockAddr::unix` makes of a path that it accepts.
pub uninterp spec fn unix_address(path: Seq<char>) -> socket2::SockAddr;

/// What `socket2::SockAddr::unix` can answer for a path: the address of that very
/// path, or an error. A path that is short enough for every platform gets an
/// address, one that is too long for every platform gets an error.
pub open spec fn unix_address_answer(
    path: Seq<char>,
    answer: Result<socket2::SockAddr, std::io::Error>,
) -> bool {
    let bytes = vstd::utf8::encode_utf8(path).len();
    &&& answer matches Ok(address) ==> address == unix_address(path)
    &&& bytes < PATH_FITS_BELOW ==> answer is Ok
    &&& bytes > PATH_FITS_UP_TO ==> answer is Err
}

/// `socket2::SockAddr::unix`: the address of the socket file at `path`, or an error
/// if the path does not fit the `sun_path` of the platform's `sockaddr_un`. That
/// array has between 104 and 1023 elements, depending on the platform; for a path
/// of a length in between, nothing is claimed of which of the two comes back.
#[verifier::external_body]
fn make_unix_address(path: &str) -> (answer: Result<socket2::SockAddr, std::io::Error>)
    ensures
        answer matches Ok(address) ==> address == unix_address(path@),
        vstd::utf8::encode_utf8(path@).len() < PATH_FITS_BELOW ==> answer is Ok,
        vstd::utf8::encode_utf8(path@).len() > PATH_FITS_UP_TO ==> answer is Err,
{
    socket2::SockAddr::unix(path)
}

/// `libc::S_IRUSR`, which is 0o400 on every Unix platform.
#[verifier::external_body]
fn owner_read() -> (bit: u32)
    ensures
        bit == OWNER_READ,
{
    libc::S_IRUSR as u32
}

/// `libc::S_IWUSR`, which is 0o200 on every Unix platform.
#[verifier::external_body]
fn owner_write() -> (bit: u32)
    ensures
        bit == OWNER_WRITE,
{
    libc::S_IWUSR as u32
}

/// The mode that a private socket is given.
pub fn owner_only_mode() -> (mode: u32)
    ensures
        mode == OWNER_READ | OWNER_WRITE,
        mode == OWNER_ONLY,
        mode & 0o177 == 0,
{
    assert(0o400u32 | 0o200u32 == 0o600u32) by (bit_vector);
    assert(0o600u32 & 0o177u32 == 0u32) by (bit_vector);
    owner_read() | owner_write()
}

/// What a private listener waits for.
pub enum BindStage {
    /// A socket is being created.
    Creating,
    /// Its mode is being set.
    Restricting,
    /// It is being bound to an address.
    Binding(socket2::SockAddr),
    /// The mode of its file is being set.
    RestrictingFile,
    /// It is being set to non-blocking mode.
    Unblocking,
    /// It is being told to listen.
    Listening,
    /// It is being handed to the runtime.
    Registering,
}

/// A private listener that is being set up.
#[verifier::ext_equal]
pub struct PrivateBindView {
    pub path: Seq<char>,
    /// Whether the platform can set the mode of a socket.
    pub restrict: bool,
    pub stage: BindStage,
}

/// An operation that sets up a private listener.
#[verifier::ext_equal]
pub enum BindActionView {
    CreateSocket,
    Restrict { mode: u32 },
    Bind { address: socket2::SockAddr },
    RestrictFile { path: Seq<char>, mode: u32 },
    SetNonblocking,
    Listen { backlog: i32 },
    Register,
}

/// The operation that a listener performs now.
pub open spec fn bind_action(bind: PrivateBindView) -> BindActionView {
    match bind.stage {
        BindStage::Creating => BindActionView::CreateSocket,
        BindStage::Restricting => BindActionView::Restrict { mode: OWNER_ONLY },
        BindStage::Binding(address) => BindActionView::Bind { address },
        BindStage::RestrictingFile => BindActionView::RestrictFile {
            path: bind.path,
            mode: OWNER_ONLY,
        },
        BindStage::Unblocking => BindActionView::SetNonblocking,
        BindStage::Listening => BindActionView::Listen { backlog: BACKLOG },
        BindStage::Registering => BindActionView::Register,
    }
}

/// Where the setting up stands once an operation is over.
#[verifier::ext_equal]
pub enum BindProgressView {
    Next(PrivateBindView),
    Finished(Result<(), std::io::Error>),
}

/// The same listener at another stage.
pub open spec fn bind_at(bind: PrivateBindView, stage: BindStage) -> BindProgressView {
    BindProgressView::Next(PrivateBindView { path: bind.path, restrict: bind.restrict, stage })
}

/// What follows the answer to the question for the listener's address.
pub open spec fn bind_addressed(
    bind: PrivateBindView,
    answer: Result<socket2::SockAddr, std::io::Error>,
) -> BindProgressView {
    match answer {
        Ok(address) => bind_at(bind, BindStage::Binding(address)),
        Err(error) => BindProgressView::Finished(Err(error)),
    }
}

/// Whether `progress` can follow the question for the listener's address.
pub open spec fn bind_finds_address(bind: PrivateBindView, progress: BindProgressView) -> bool {
    exists|answer: Result<socket2::SockAddr, std::io::Error>| #[trigger]
        unix_address_answer(bind.path, answer) && progress == bind_addressed(bind, answer)
}

/// Whether `progress` can follow an operation of the listener that ended in
/// `outcome`. The first error is the result; without one, the operations follow in
/// order.
pub open spec fn bind_step(
    bind: PrivateBindView,
    outcome: Result<(), std::io::Error>,
    progress: BindProgressView,
) -> bool {
    match outcome {
        Err(error) => progress == BindProgressView::Finished(Err(error)),
        Ok(_) => match bind.stage {
            BindStage::Creating => if bind.restrict {
                progress == bind_at(bind, BindStage::Restricting)
            } else {
                bind_finds_address(bind, progress)
            },
            BindStage::Restricting => bind_finds_address(bind, progress),
            BindStage::Binding(_) => if bind.restrict {
                progress == bind_at(bind, BindStage::Unblocking)
            } else {
                progress == bind_at(bind, BindStage::RestrictingFile)
            },
            BindStage::RestrictingFile => progress == bind_at(bind, BindStage::Unblocking),
            BindStage::Unblocking => progress == bind_at(bind, BindStage::Listening),
            BindStage::Listening => progress == bind_at(bind, BindStage::Registering),
            BindStage::Registering => progress == BindProgressView::Finished(Ok(())),
        },
    }
}

/// A private listener that is being set up. Its action is to be performed, and the
/// outcome told to it.
pub struct PrivateBind {
    path: String,
    restrict: bool,
    stage: BindStage,
}

impl View for PrivateBind {
    type V = PrivateBindView;

    closed spec fn view(&self) -> PrivateBindView {
        PrivateBindView { path: self.path@, restrict: self.restrict, stage: self.stage }
    }
}

/// Where the setting up stands once an operation is over.
pub enum BindProgress {
    /// Another operation is to be performed.
    Next(PrivateBind),
    /// The listener is ready, or the first error that came up.
    Finished(Result<(), std::io::Error>),
}

impl View for BindProgress {
    type V = BindProgressView;

    open spec fn view(&self) -> BindProgressView {
        match self {
            BindProgress::Next(bind) => BindProgressView::Next(bind@),
            BindProgress::Finished(outcome) => BindProgressView::Finished(*outcome),
        }
    }
}

/// An operation that sets up a private listener.
pub enum BindAction<'a> {
    /// Create a Unix stream socket.
    CreateSocket,
    /// Set the mode of the socket.
    Restrict { mode: u32 },
    /// Bind the socket, which creates its file.
    Bind { address: &'a socket2::SockAddr },
    /// Set the mode of the socket's file at `path`.
    RestrictFile { path: &'a str, mode: u32 },
    /// Set the socket to non-blocking mode.
    SetNonblocking,
    /// Listen on the socket.
    Listen { backlog: i32 },
    /// Hand the socket to the runtime.
    Register,
}

impl<'a> View for BindAction<'a> {
    type V = BindActionView;

    open spec fn view(&self) -> BindActionView {
        match self {
            BindAction::CreateSocket => BindActionView::CreateSocket,
            BindAction::Restrict { mode } => BindActionView::Restrict { mode: *mode },
            BindAction::Bind { address } => BindActionView::Bind { address: **address },
            BindAction::RestrictFile { path, mode } => BindActionView::RestrictFile {
                path: path@,
                mode: *mode,
            },
            BindAction::SetNonblocking => BindActionView::SetNonblocking,
            BindAction::Listen { backlog } => BindActionView::Listen { backlog: *backlog },
            BindAction::Register => BindActionView::Register,
        }
    }
}

/// Starts to set up a private listener on the socket file at `path`. `restrict`
/// says whether the platform can set the mode of a socket.
pub fn uds_bind_private(path: &str, restrict: bool) -> (bind: PrivateBind)
    ensures
        bind@ == (PrivateBindView { path: path@, restrict, stage: BindStage::Creating }),
{
    PrivateBind { path: String::from_str(path), restrict, stage: BindStage::Creating }
}

impl PrivateBind {
    /// The operation to perform now.
    pub fn action(&self) -> (action: BindAction<'_>)
        ensures
            action@ == bind_action(self@),
    {
        match &self.stage {
            BindStage::Creating => BindAction::CreateSocket,
            BindStage::Restricting => BindAction::Restrict { mode: owner_only_mode() },
            BindStage::Binding(address) => BindAction::Bind { address },
            BindStage::RestrictingFile => BindAction::RestrictFile {
                path: self.path.as_str(),
                mode: owner_only_mode(),
            },
            BindStage::Unblocking => BindAction::SetNonblocking,
            BindStage::Listening => BindAction::Listen { backlog: BACKLOG },
            BindStage::Registering => BindAction::Register,
        }
    }

    /// The same listener at another stage.
    fn at(self, stage: BindStage) -> (progress: BindProgress)
        ensures
            progress@ == bind_at(self@, stage),
    {
        BindProgress::Next(PrivateBind { path: self.path, restrict: self.restrict, stage })
    }

    /// Goes on from the answer to the question for the listener's address.
    pub fn addressed(self, answer: Result<socket2::SockAddr, std::io::Error>) -> (progress:
        BindProgress)
        ensures
            progress@ == bind_addressed(self@, answer),
    {
        match answer {
            Ok(address) => self.at(BindStage::Binding(address)),
            Err(error) => BindProgress::Finished(Err(error)),
        }
    }

    /// Goes on from the operation that was performed.
    pub fn advance(self, outcome: Result<(), std::io::Error>) -> (progress: BindProgress)
        ensures
            bind_step(self@, outcome, progress@),
    {
        match outcome {
            Err(error) => BindProgress::Finished(Err(error)),
            Ok(_) => match self.stage {
                BindStage::Creating if self.restrict => self.at(BindStage::Restricting),
                BindStage::Creating | BindStage::Restricting => {
                    let answer = make_unix_address(self.path.as_str());
                    assert(unix_address_answer(self@.path, answer));
                    self.addressed(answer)
                },
                BindStage::Binding(_) if !self.restrict => self.at(BindStage::RestrictingFile),
                BindStage::Binding(_) | BindStage::RestrictingFile => self.at(
                    BindStage::Unblocking,
                ),
                BindStage::Unblocking => self.at(BindStage::Listening),
                BindStage::Listening => self.at(BindStage::Registering),
                BindStage::Registering => BindProgress::Finished(Ok(())),
            },
        }
    }
}

/// Whether `steps` are the stages that a listener goes through, from its start, as
/// its operations end in `outcomes`.
pub open spec fn bind_run(
    path: Seq<char>,
    restrict: bool,
    steps: Seq<PrivateBindView>,
    outcomes: Seq<Result<(), std::io::Error>>,
) -> bool {
    &&& steps.len() == outcomes.len() + 1
    &&& steps[0] == PrivateBindView { path, restrict, stage: BindStage::Creating }
    &&& forall|i: int|
        #![trigger outcomes[i]]
        0 <= i < outcomes.len() ==> bind_step(
            steps[i],
            outcomes[i],
            BindProgressView::Next(steps[i + 1]),
        )
}

/// How many operations a listener has behind it at a stage.
pub open spec fn bind_done(restrict: bool, stage: BindStage) -> nat {
    match stage {
        BindStage::Creating => 0,
        BindStage::Restricting => 1,
        BindStage::Binding(_) => if restrict {
            2
        } else {
            1
        },
        BindStage::RestrictingFile => 2,
        BindStage::Unblocking => 3,
        BindStage::Listening => 4,
        BindStage::Registering => 5,
    }
}

/// The operations come in one order only: the socket is created; restricted and then
/// bound, or bound and then its file restricted; unblocked, told to listen and
/// registered. None comes unless those before it succeeded, and only the path asked
/// for is ever bound.
pub proof fn law_bind_order(
    path: Seq<char>,
    restrict: bool,
    steps: Seq<PrivateBindView>,
    outcomes: Seq<Result<(), std::io::Error>>,
    k: int,
)
    requires
        bind_run(path, restrict, steps, outcomes),
        0 <= k < steps.len(),
    ensures
        steps[k].path == path,
        steps[k].restrict == restrict,
        bind_done(restrict, steps[k].stage) == k,
        steps[k].stage is Restricting ==> restrict,
        steps[k].stage is RestrictingFile ==> !restrict,
        steps[k].stage matches BindStage::Binding(address) ==> address == unix_address(path),
        forall|i: int| 0 <= i < k ==> #[trigger] outcomes[i] is Ok,
    decreases k,
{
    if k > 0 {
        law_bind_order(path, restrict, steps, outcomes, k - 1);
        assert(bind_step(
            steps[k - 1],
            outcomes[k - 1],
            BindProgressView::Next(steps[k - 1 + 1]),
        ));
    }
}

/// Where the platform can set the mode of a socket, the socket is bound, and with
/// that its file created, only once its mode has been set to that of a private
/// socket.
pub proof fn law_restricted_before_bind(
    path: Seq<char>,
    steps: Seq<PrivateBindView>,
    outcomes: Seq<Result<(), std::io::Error>>,
    k: int,
)
    requires
        bind_run(path, true, steps, outcomes),
        0 <= k < steps.len(),
        !(steps[k].stage is Creating),
        !(steps[k].stage is Restricting),
    ensures
        exists|i: int|
            0 <= i < k && (#[trigger] steps[i]).stage is Restricting && outcomes[i] is Ok,
{
    law_bind_order(path, true, steps, outcomes, k);
    law_bind_order(path, true, steps, outcomes, 1);
    assert(steps[1].stage is Restricting && outcomes[1] is Ok);
}

/// Whether an operation gives the socket, or the file at its path, the mode of a
/// private socket.
pub open spec fn makes_private(action: BindActionView, path: Seq<char>) -> bool {
    ||| action == (BindActionView::Restrict { mode: OWNER_ONLY })
    ||| action == (BindActionView::RestrictFile { path, mode: OWNER_ONLY })
}

/// On every platform, a listener is told to listen, and with that lets anybody in,
/// only once an operation that makes it private has succeeded.
pub proof fn law_private_before_listening(
    path: Seq<char>,
    restrict: bool,
    steps: Seq<PrivateBindView>,
    outcomes: Seq<Result<(), std::io::Error>>,
    k: int,
)
    requires
        bind_run(path, restrict, steps, outcomes),
        0 <= k < steps.len(),
        steps[k].stage is Listening || steps[k].stage is Registering,
    ensures
        exists|i: int|
            0 <= i < k && makes_private(bind_action(#[trigger] steps[i]), path)
                && outcomes[i] is Ok,
{
    law_bind_order(path, restrict, steps, outcomes, k);
    let i: int = if restrict {
        1
    } else {
        2
    };
    law_bind_order(path, restrict, steps, outcomes, i);
    assert(makes_private(bind_action(steps[i]), path) && outcomes[i] is Ok);
}

/// On every platform, a listener that is ready is private: an operation that makes it
/// so has succeeded.
pub proof fn law_ready_is_private(
    path: Seq<char>,
    restrict: bool,
    steps: Seq<PrivateBindView>,
    outcomes: Seq<Result<(), std::io::Error>>,
    outcome: Result<(), std::io::Error>,
)
    requires
        bind_run(path, restrict, steps, outcomes),
        bind_step(steps.last(), outcome, BindProgressView::Finished(Ok(()))),
    ensures
        exists|i: int|
            0 <= i < outcomes.len() && makes_private(bind_action(#[trigger] steps[i]), path)
                && outcomes[i] is Ok,
{
    law_private_before_listening(path, restrict, steps, outcomes, steps.len() - 1);
}

/// On a path that fits every platform's socket addresses, a listener whose
/// operations all succeed becomes ready, and does so after the last of them.
pub proof fn law_bind_succeeds(
    path: Seq<char>,
    restrict: bool,
    steps: Seq<PrivateBindView>,
    outcomes: Seq<Result<(), std::io::Error>>,
    progress: BindProgressView,
)
    requires
        bind_run(path, restrict, steps, outcomes),
        vstd::utf8::encode_utf8(path).len() < PATH_FITS_BELOW,
        bind_step(steps.last(), Ok(()), progress),
    ensures
        progress is Next || progress == BindProgressView::Finished(Ok(())),
        progress is Finished <==> steps.len() == 6,
{
    law_bind_order(path, restrict, steps, outcomes, steps.len() - 1);
}

/// The first operation that fails ends the setting up, with its own error.
pub proof fn law_bind_first_error(
    bind: PrivateBindView,
    error: std::io::Error,
    progress: BindProgressView,
)
    requires
        bind_step(bind, Err(error), progress),
    ensures
        progress == BindProgressView::Finished(Err(error)),
{
}

/// The operations of a listener whose operations succeed, in order and with what they
/// are given: the socket or the file at the path asked for is made private with mode
/// 0o600, the address of that path is bound, and 1024 connections may wait.
pub proof fn law_bind_operations(
    path: Seq<char>,
    restrict: bool,
    steps: Seq<PrivateBindView>,
    outcomes: Seq<Result<(), std::io::Error>>,
    k: int,
)
    requires
        bind_run(path, restrict, steps, outcomes),
        0 <= k < steps.len(),
    ensures
        k <= 5,
        bind_action(steps[k]) == if k == 0 {
            BindActionView::CreateSocket
        } else if k == 1 && restrict {
            BindActionView::Restrict { mode: 0o600 }
        } else if k == 2 && restrict || k == 1 {
            BindActionView::Bind { address: unix_address(path) }
        } else if k == 2 {
            BindActionView::RestrictFile { path, mode: 0o600 }
        } else if k == 3 {
            BindActionView::SetNonblocking
        } else if k == 4 {
            BindActionView::Listen { backlog: 1024 }
        } else {
            BindActionView::Register
        },
{
    law_bind_order(path, restrict, steps, outcomes, k);
}

/// What follows the operations of a listener: an error ends the setting up with that
/// error; the last success ends it well; every other success is followed by the next
/// operation, unless the path has no address, which ends it with an error before the
/// socket is bound.
pub proof fn law_bind_next(
    path: Seq<char>,
    restrict: bool,
    steps: Seq<PrivateBindView>,
    outcomes: Seq<Result<(), std::io::Error>>,
    error: std::io::Error,
    progress: BindProgressView,
)
    requires
        bind_run(path, restrict, steps, outcomes),
    ensures
        bind_step(steps.last(), Err(error), progress) ==> progress
            == BindProgressView::Finished(Err(error)),
        bind_step(steps.last(), Ok(()), progress) && steps.len() == 6 ==> progress
            == BindProgressView::Finished(Ok(())),
        bind_step(steps.last(), Ok(()), progress) && progress is Finished && steps.len() < 6
            ==> steps.len() == (if restrict {
            2int
        } else {
            1int
        }) && progress->Finished_0 is Err,
{
    law_bind_order(path, restrict, steps, outcomes, steps.len() - 1);
}

/// A path that fits no platform's socket addresses is never bound.
pub proof fn law_long_path_never_bound(
    path: Seq<char>,
    restrict: bool,
    steps: Seq<PrivateBindView>,
    outcomes: Seq<Result<(), std::io::Error>>,
    k: int,
)
    requires
        bind_run(path, restrict, steps, outcomes),
        vstd::utf8::encode_utf8(path).len() > 1023,
        0 <= k < steps.len(),
    ensures
        bind_action(steps[k]) is CreateSocket || bind_action(steps[k]) is Restrict,
    decreases k,
{
    law_bind_order(path, restrict, steps, outcomes, k);
    if k > 0 {
        law_long_path_never_bound(path, restrict, steps, outcomes, k - 1);
        assert(bind_step(
            steps[k - 1],
            outcomes[k - 1],
            BindProgressView::Next(steps[k - 1 + 1]),
        ));
    }
}

/// The address that is found for a path is bound next; an error instead of it is the
/// outcome.
pub proof fn law_address_is_bound(
    bind: PrivateBindView,
    address: socket2::SockAddr,
    error: std::io::Error,
)
    ensures
        bind_addressed(bind, Ok(address)) matches BindProgressView::Next(next) && next.path
            == bind.path && next.restrict == bind.restrict && bind_action(next) == (
        BindActionView::Bind { address }),
        bind_addressed(bind, Err(error)) == BindProgressView::Finished(Err(error)),
{
}

/// What a listener asks for and how it ends are taken as they are.
pub proof fn law_bind_shown<'a>(
    bind: PrivateBind,
    outcome: Result<(), std::io::Error>,
    address: &'a socket2::SockAddr,
    path: &'a str,
    mode: u32,
    backlog: i32,
)
    ensures
        BindProgress::Next(bind)@ == BindProgressView::Next(bind@),
        BindProgress::Finished(outcome)@ == BindProgressView::Finished(outcome),
        BindAction::CreateSocket@ == BindActionView::CreateSocket,
        (BindAction::Restrict { mode })@ == (BindActionView::Restrict { mode }),
        (BindAction::Bind { address })@ == (BindActionView::Bind { address: *address }),
        (BindAction::RestrictFile { path, mode })@ == (BindActionView::RestrictFile {
            path: path@,
            mode,
        }),
        BindAction::SetNonblocking@ == BindActionView::SetNonblocking,
        (BindAction::Listen { backlog })@ == (BindActionView::Listen { backlog }),
        BindAction::Register@ == BindActionView::Register,
{
}

} // verus!
