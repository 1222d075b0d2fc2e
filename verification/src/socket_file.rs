//! The search for a socket file that does not exist yet.

use rand::Rng;
use vstd::prelude::*;

use crate::decimal;

verus! {

/// How often a new socket file is tried for.
pub const SOCKET_FILE_ATTEMPTS: u32 = 5;

/// The name of a socket file: the process and a suffix, in a directory.
pub open spec fn socket_path(dir: Seq<char>, pid: nat, suffix: nat) -> Seq<char> {
    dir + "/"@ + decimal::decimal(pid) + "_"@ + decimal::decimal(suffix)
}

/// Writes the name of a socket file.
pub fn socket_file_path(dir: &str, pid: u32, suffix: usize) -> (path: String)
    ensures
        path@ == socket_path(dir@, pid as nat, suffix as nat),
{
    let pid = decimal::to_decimal(pid as u64);
    let suffix = decimal::to_decimal(suffix as u64);
    String::from_str(dir).concat("/").concat(pid.as_str()).concat("_").concat(suffix.as_str())
}

/// Two socket files of one directory have the same name only if they belong to
/// the same process and have the same suffix.
pub proof fn law_socket_path_injective(
    dir: Seq<char>,
    pid: nat,
    suffix: nat,
    other_pid: nat,
    other_suffix: nat,
)
    requires
        socket_path(dir, pid, suffix) == socket_path(dir, other_pid, other_suffix),
    ensures
        pid == other_pid,
        suffix == other_suffix,
{
    reveal_strlit("/");
    reveal_strlit("_");
    decimal::law_decimal_value(pid);
    decimal::law_decimal_value(other_pid);
    let path = socket_path(dir, pid, suffix);
    let other = socket_path(dir, other_pid, other_suffix);
    let start = dir.len() as int + 1;
    let len = decimal::decimal(pid).len() as int;
    let other_len = decimal::decimal(other_pid).len() as int;
    assert(path[start + len] == '_');
    assert(other[start + other_len] == '_');
    if len < other_len {
        assert(other[start + len] == decimal::decimal(other_pid)[len]);
        assert(decimal::is_digit(decimal::decimal(other_pid)[len]));
    }
    if other_len < len {
        assert(path[start + other_len] == decimal::decimal(pid)[other_len]);
        assert(decimal::is_digit(decimal::decimal(pid)[other_len]));
    }
    assert(path.subrange(start, start + len) =~= decimal::decimal(pid));
    assert(other.subrange(start, start + len) =~= decimal::decimal(other_pid));
    decimal::law_decimal_injective(pid, other_pid);
    assert(path.skip(start + len + 1) =~= decimal::decimal(suffix));
    assert(other.skip(start + len + 1) =~= decimal::decimal(other_suffix));
    decimal::law_decimal_injective(suffix, other_suffix);
}

/// `rand::Rng::gen` on the generator of the current thread, `rand::thread_rng`.
/// Every `usize` can come back; nothing is claimed of which one does. It panics only
/// if the operating system gives no randomness, for the first seed or for a later one,
/// or does not let a fork handler be registered.
#[verifier::external_body]
fn random_suffix() -> (suffix: usize) {
    rand::thread_rng().gen::<usize>()
}

/// A search for a new socket file: the attempt that is under way.
#[verifier::ext_equal]
pub struct SearchView {
    pub dir: Seq<char>,
    pub pid: nat,
    /// Which attempt this is; the first is 1.
    pub attempt: nat,
    /// The file to create.
    pub path: Seq<char>,
}

/// Where a search stands once an attempt is over.
#[verifier::ext_equal]
pub enum SearchProgressView {
    Retry(SearchView),
    Found(Seq<char>),
    Failed,
}

/// One attempt, at the file with the given suffix.
pub open spec fn search_attempt(
    dir: Seq<char>,
    pid: nat,
    attempt: nat,
    suffix: nat,
) -> SearchView {
    SearchView { dir, pid, attempt, path: socket_path(dir, pid, suffix) }
}

/// What follows an attempt. `suffix` is that of the next attempt, if there is one.
pub open spec fn search_step(search: SearchView, created: bool, suffix: nat) -> SearchProgressView {
    if created {
        SearchProgressView::Found(search.path)
    } else if search.attempt < SOCKET_FILE_ATTEMPTS {
        SearchProgressView::Retry(
            search_attempt(search.dir, search.pid, search.attempt + 1, suffix),
        )
    } else {
        SearchProgressView::Failed
    }
}

/// Where a search stands after a number of attempts: `created` says of each
/// whether it made the file, `suffixes` are those of the attempts that follow
/// the first.
pub open spec fn search_run(
    search: SearchView,
    created: Seq<bool>,
    suffixes: Seq<nat>,
) -> SearchProgressView
    decreases created.len(),
{
    if created.len() == 0 {
        SearchProgressView::Retry(search)
    } else {
        match search_step(search, created[0], suffixes[0]) {
            SearchProgressView::Retry(next) => search_run(
                next,
                created.drop_first(),
                suffixes.drop_first(),
            ),
            done => done,
        }
    }
}

/// A search for a new socket file. The file of the current attempt is to be
/// created, and the search told whether that succeeded.
pub struct SocketFileSearch {
    dir: String,
    pid: u32,
    attempt: u32,
    path: String,
}

impl View for SocketFileSearch {
    type V = SearchView;

    closed spec fn view(&self) -> SearchView {
        SearchView {
            dir: self.dir@,
            pid: self.pid as nat,
            attempt: self.attempt as nat,
            path: self.path@,
        }
    }
}

/// No attempt at a new socket file succeeded.
#[derive(Debug, Clone, Copy, PartialEq, Eq, Structural)]
pub struct SocketFileError;

impl SocketFileError {
    /// Writes the error for a reader.
    pub fn message(&self) -> (message: String)
        ensures
            message@ == "Failed to create a new file"@,
    {
        String::from_str("Failed to create a new file")
    }
}

/// Where a search stands once an attempt is over.
pub enum SearchProgress {
    /// Another attempt is to be made.
    Retry(SocketFileSearch),
    /// The file that was created.
    Found(String),
    /// No attempt is left.
    Failed(SocketFileError),
}

impl View for SearchProgress {
    type V = SearchProgressView;

    open spec fn view(&self) -> SearchProgressView {
        match self {
            SearchProgress::Retry(search) => SearchProgressView::Retry(search@),
            SearchProgress::Found(path) => SearchProgressView::Found(path@),
            SearchProgress::Failed(_) => SearchProgressView::Failed,
        }
    }
}

/// Starts a search for a new socket file of process `pid` in `socket_dir`.
pub fn new_socket_file_path(socket_dir: &str, pid: u32) -> (search: SocketFileSearch)
    ensures
        exists|suffix: usize|
            search@ == #[trigger] search_attempt(socket_dir@, pid as nat, 1, suffix as nat),
{
    let suffix = random_suffix();
    SocketFileSearch::first(socket_dir, pid, suffix)
}

impl SocketFileSearch {
    /// The first attempt of a search, at the file with the given suffix.
    pub fn first(socket_dir: &str, pid: u32, suffix: usize) -> (search: SocketFileSearch)
        ensures
            search@ == search_attempt(socket_dir@, pid as nat, 1, suffix as nat),
    {
        let path = socket_file_path(socket_dir, pid, suffix);
        SocketFileSearch { dir: String::from_str(socket_dir), pid, attempt: 1, path }
    }

    /// The file to create now.
    pub fn path(&self) -> (path: &str)
        ensures
            path@ == self@.path,
    {
        self.path.as_str()
    }

    /// Goes on from an attempt. `suffix` is that of the next attempt, if there is one.
    pub fn advance_with(self, created: bool, suffix: usize) -> (progress: SearchProgress)
        ensures
            progress@ == search_step(self@, created, suffix as nat),
    {
        if created {
            SearchProgress::Found(self.path)
        } else if self.attempt < SOCKET_FILE_ATTEMPTS {
            let path = socket_file_path(self.dir.as_str(), self.pid, suffix);
            SearchProgress::Retry(
                SocketFileSearch { dir: self.dir, pid: self.pid, attempt: self.attempt + 1, path },
            )
        } else {
            SearchProgress::Failed(SocketFileError)
        }
    }

    /// Goes on from an attempt, with a random suffix for the next one.
    pub fn advance(self, created: bool) -> (progress: SearchProgress)
        ensures
            exists|suffix: usize|
                progress@ == #[trigger] search_step(self@, created, suffix as nat),
    {
        let another = !created && self.attempt < SOCKET_FILE_ATTEMPTS;
        let suffix: usize = if another {
            random_suffix()
        } else {
            0
        };
        self.advance_with(created, suffix)
    }
}

/// The run of a search from any of its attempts.
proof fn lemma_search_run(
    dir: Seq<char>,
    pid: nat,
    attempt: nat,
    created: Seq<bool>,
    suffixes: Seq<nat>,
    hit: int,
)
    requires
        1 <= attempt <= SOCKET_FILE_ATTEMPTS,
        created.len() == SOCKET_FILE_ATTEMPTS + 1 - attempt,
        suffixes.len() == created.len(),
        0 <= hit <= created.len(),
        forall|i: int| 0 <= i < hit ==> !#[trigger] created[i],
        hit < created.len() ==> created[hit],
    ensures
        search_run(
            search_attempt(dir, pid, attempt, suffixes[0]),
            created,
            suffixes.drop_first(),
        ) == if hit < created.len() {
            SearchProgressView::Found(socket_path(dir, pid, suffixes[hit]))
        } else {
            SearchProgressView::Failed
        },
    decreases created.len(),
{
    if hit > 0 {
        assert(!created[0]);
        if attempt < SOCKET_FILE_ATTEMPTS {
            lemma_search_run(
                dir,
                pid,
                attempt + 1,
                created.drop_first(),
                suffixes.drop_first(),
                hit - 1,
            );
        }
    }
}

/// A search returns the file of the first attempt that created one.
pub proof fn law_search_finds_first_created(
    dir: Seq<char>,
    pid: nat,
    created: Seq<bool>,
    suffixes: Seq<nat>,
    hit: int,
)
    requires
        created.len() == SOCKET_FILE_ATTEMPTS,
        suffixes.len() == created.len(),
        0 <= hit < created.len(),
        created[hit],
        forall|i: int| 0 <= i < hit ==> !#[trigger] created[i],
    ensures
        search_run(search_attempt(dir, pid, 1, suffixes[0]), created, suffixes.drop_first())
            == SearchProgressView::Found(socket_path(dir, pid, suffixes[hit])),
{
    lemma_search_run(dir, pid, 1, created, suffixes, hit);
}

/// A search none of whose attempts created a file fails once it has made as many
/// attempts as it may.
pub proof fn law_search_gives_up(
    dir: Seq<char>,
    pid: nat,
    created: Seq<bool>,
    suffixes: Seq<nat>,
)
    requires
        created.len() == SOCKET_FILE_ATTEMPTS,
        suffixes.len() == created.len(),
        forall|i: int| 0 <= i < created.len() ==> !#[trigger] created[i],
    ensures
        search_run(search_attempt(dir, pid, 1, suffixes[0]), created, suffixes.drop_first())
            == SearchProgressView::Failed,
{
    lemma_search_run(dir, pid, 1, created, suffixes, created.len() as int);
}

/// The run of a search whose attempts all fail, from any of its attempts.
proof fn lemma_search_retries(
    dir: Seq<char>,
    pid: nat,
    attempt: nat,
    created: Seq<bool>,
    suffixes: Seq<nat>,
)
    requires
        attempt + created.len() <= SOCKET_FILE_ATTEMPTS,
        suffixes.len() == created.len() + 1,
        forall|i: int| 0 <= i < created.len() ==> !#[trigger] created[i],
    ensures
        search_run(
            search_attempt(dir, pid, attempt, suffixes[0]),
            created,
            suffixes.drop_first(),
        ) == SearchProgressView::Retry(
            search_attempt(dir, pid, attempt + created.len(), suffixes.last()),
        ),
    decreases created.len(),
{
    if created.len() > 0 {
        assert(!created[0]);
        lemma_search_retries(
            dir,
            pid,
            attempt + 1,
            created.drop_first(),
            suffixes.drop_first(),
        );
    }
}

/// A search that has made fewer attempts than it may, all in vain, goes on to a
/// file with a new suffix, in the same directory and for the same process.
pub proof fn law_search_goes_on(
    dir: Seq<char>,
    pid: nat,
    created: Seq<bool>,
    suffixes: Seq<nat>,
)
    requires
        created.len() < SOCKET_FILE_ATTEMPTS,
        suffixes.len() == created.len() + 1,
        forall|i: int| 0 <= i < created.len() ==> !#[trigger] created[i],
    ensures
        search_run(search_attempt(dir, pid, 1, suffixes[0]), created, suffixes.drop_first())
            == SearchProgressView::Retry(
            search_attempt(dir, pid, 1 + created.len(), suffixes.last()),
        ),
{
    lemma_search_retries(dir, pid, 1, created, suffixes);
}

/// The name of a socket file is the whole directory, a slash, the process in decimal,
/// an underscore and the suffix in decimal.
pub proof fn law_socket_path_parts(dir: Seq<char>, pid: nat, suffix: nat)
    ensures
        ({
            let path = socket_path(dir, pid, suffix);
            let start = dir.len() as int + 1;
            let middle = start + decimal::decimal(pid).len();
            &&& path.take(dir.len() as int) == dir
            &&& path[dir.len() as int] == '/'
            &&& path.subrange(start, middle) == decimal::decimal(pid)
            &&& path[middle] == '_'
            &&& path.skip(middle + 1) == decimal::decimal(suffix)
        }),
{
    reveal_strlit("/");
    reveal_strlit("_");
    let path = socket_path(dir, pid, suffix);
    let start = dir.len() as int + 1;
    let middle = start + decimal::decimal(pid).len();
    assert(path.take(dir.len() as int) =~= dir);
    assert(path.subrange(start, middle) =~= decimal::decimal(pid));
    assert(path.skip(middle + 1) =~= decimal::decimal(suffix));
}

/// Every attempt is at the file of its directory, its process and its own suffix, and
/// that file is what a success returns.
pub proof fn law_attempt_is_at_its_file(
    dir: Seq<char>,
    pid: nat,
    attempt: nat,
    suffix: nat,
    other: nat,
)
    ensures
        search_attempt(dir, pid, attempt, suffix).path == socket_path(dir, pid, suffix),
        search_step(search_attempt(dir, pid, attempt, suffix), true, other)
            == SearchProgressView::Found(socket_path(dir, pid, suffix)),
{
}

/// Of five attempts in a row that all fail, each is at the file with the suffix drawn
/// for it, and only the fifth is the last.
pub proof fn law_search_makes_five_attempts(
    dir: Seq<char>,
    pid: nat,
    made: nat,
    suffixes: Seq<nat>,
)
    requires
        suffixes.len() == 5,
    ensures
        ({
            let progress = search_run(
                search_attempt(dir, pid, 1, suffixes[0]),
                Seq::new(made, |i: int| false),
                suffixes.drop_first(),
            );
            &&& made < 5 ==> (progress matches SearchProgressView::Retry(search) && search.path
                == socket_path(dir, pid, suffixes[made as int]))
            &&& made == 5 ==> progress is Failed
        }),
{
    let created = Seq::new(made, |i: int| false);
    if made < 5 {
        let used = suffixes.take(made as int + 1);
        lemma_search_retries(dir, pid, 1, created, used);
        lemma_unused_suffixes(
            search_attempt(dir, pid, 1, suffixes[0]),
            created,
            used.drop_first(),
            suffixes.drop_first(),
        );
    } else if made == 5 {
        law_search_gives_up(dir, pid, created, suffixes);
    }
}

/// Suffixes for attempts that are not made do not matter.
proof fn lemma_unused_suffixes(
    search: SearchView,
    created: Seq<bool>,
    suffixes: Seq<nat>,
    others: Seq<nat>,
)
    requires
        suffixes.len() == created.len(),
        others.len() >= created.len(),
        forall|i: int| 0 <= i < suffixes.len() ==> #[trigger] suffixes[i] == others[i],
    ensures
        search_run(search, created, suffixes) == search_run(search, created, others),
    decreases created.len(),
{
    if created.len() > 0 {
        assert(suffixes[0] == others[0]);
        match search_step(search, created[0], suffixes[0]) {
            SearchProgressView::Retry(next) => {
                lemma_unused_suffixes(
                    next,
                    created.drop_first(),
                    suffixes.drop_first(),
                    others.drop_first(),
                );
            },
            _ => {},
        }
    }
}

/// What a search tells its caller is taken as it is.
pub proof fn law_search_progress_shown(
    search: SocketFileSearch,
    path: String,
    error: SocketFileError,
)
    ensures
        SearchProgress::Retry(search)@ == SearchProgressView::Retry(search@),
        SearchProgress::Found(path)@ == SearchProgressView::Found(path@),
        SearchProgress::Failed(error)@ == SearchProgressView::Failed,
{
}

} // verus!
