use vstd::prelude::*;

use crate::os_clock::{duration_as_millis, elapsed_since_unix_epoch, system_time_now};

verus! {

/// What `std::path::Path::parent` returns for a path, as text.
pub uninterp spec fn path_parent(path: Seq<char>) -> Option<Seq<char>>;

/// The filesystem locations the shared backend is opened with.
#[derive(Clone, Debug, PartialEq, Eq)]
pub struct BackendPaths {
    pub database_path: String,
    pub worktree_root: String,
    pub home_directory: String,
}

/// Collects the locations the shared backend is opened with.
pub fn backend_paths(database_path: &str, worktree_root: &str, home_directory: &str) -> (paths: BackendPaths)
    ensures
        paths.database_path@ == database_path@,
        paths.worktree_root@ == worktree_root@,
        paths.home_directory@ == home_directory@,
{
    BackendPaths {
        database_path: database_path.to_string(),
        worktree_root: worktree_root.to_string(),
        home_directory: home_directory.to_string(),
    }
}

/// Returns the parent of a path with `std::path::Path::parent`, as text; the
/// path is valid UTF-8 and so is every prefix that `parent` returns.
#[verifier::external_body]
fn parent_path(path: &str) -> (parent: Option<String>)
    ensures
        parent is Some <==> path_parent(path@) is Some,
        parent matches Some(p) ==> path_parent(path@) == Some(p@),
{
    std::path::Path::new(path).parent().map(|p| p.to_string_lossy().into_owned())
}

/// The directory a project root lives in, or the root itself when it has no parent.
pub open spec fn parent_or_self(path: Seq<char>) -> Seq<char> {
    match path_parent(path) {
        Some(parent) => parent,
        None => path,
    }
}

/// Returns the directory that a project root lives in, or the root itself when
/// it has no parent.
pub fn home_directory_for(project_root: &str) -> (home: String)
    ensures
        home@ == parent_or_self(project_root@),
{
    match parent_path(project_root) {
        Some(parent) => parent,
        None => project_root.to_string(),
    }
}

/// Collects the backend locations used when application state is built from
/// explicit paths: the database, the worktree root `work_dir`, and as home
/// directory the directory the project root lives in.
pub fn backend_paths_for_database(database_path: &str, project_root: &str, work_dir: &str) -> (paths: BackendPaths)
    ensures
        paths.database_path@ == database_path@,
        paths.worktree_root@ == work_dir@,
        paths.home_directory@ == parent_or_self(project_root@),
{
    let home = home_directory_for(project_root);
    backend_paths(database_path, work_dir, home.as_str())
}

/// Failures of opening the shared backend, each carrying its underlying cause.
#[derive(Clone, Debug, PartialEq, Eq)]
pub enum BackendBootstrapError<Io, Db, Rt> {
    /// A data directory could not be created.
    DirectoryCreate { path: String, source: Io },
    /// The database could not be bootstrapped.
    Database(Db),
    /// The agent runtime could not be started.
    AgentRuntime(Rt),
}

/// Failures of bootstrapping the web process, each carrying its underlying cause.
#[derive(Clone, Debug, PartialEq, Eq)]
pub enum WebBootstrapError<Io, Db, Rt> {
    DataDirectoryCreate(Io),
    DatabaseBootstrap(Db),
    BackendRuntimeBootstrap(Rt),
}

/// Maps shared backend bootstrap failures into the stable web process error
/// surface, keeping each underlying cause.
pub fn web_backend_bootstrap_error<Io, Db, Rt>(error: BackendBootstrapError<Io, Db, Rt>) -> (res: WebBootstrapError<Io, Db, Rt>)
    ensures
        match error {
            BackendBootstrapError::DirectoryCreate { source, .. } => res == WebBootstrapError::<Io, Db, Rt>::DataDirectoryCreate(source),
            BackendBootstrapError::Database(source) => res == WebBootstrapError::<Io, Db, Rt>::DatabaseBootstrap(source),
            BackendBootstrapError::AgentRuntime(source) => res == WebBootstrapError::<Io, Db, Rt>::BackendRuntimeBootstrap(source),
        },
{
    match error {
        BackendBootstrapError::DirectoryCreate { source, .. } => WebBootstrapError::DataDirectoryCreate(source),
        BackendBootstrapError::Database(source) => WebBootstrapError::DatabaseBootstrap(source),
        BackendBootstrapError::AgentRuntime(source) => WebBootstrapError::BackendRuntimeBootstrap(source),
    }
}

/// The audit timestamp for an elapsed time since the Unix epoch: its whole
/// milliseconds cast to 64 bits, or zero for a clock set before the epoch.
pub open spec fn timestamp_millis_for(elapsed_millis: Option<u128>) -> i64 {
    match elapsed_millis {
        Some(millis) => millis as i64,
        None => 0,
    }
}

/// Converts whole milliseconds since the Unix epoch into an audit timestamp, or
/// zero when the clock lies before the epoch; any count that fits in 64 bits is
/// kept exactly.
pub fn timestamp_millis_from_elapsed(elapsed_millis: Option<u128>) -> (millis: i64)
    ensures
        millis == timestamp_millis_for(elapsed_millis),
        elapsed_millis matches Some(m) ==> (m <= i64::MAX ==> millis == m),
{
    match elapsed_millis {
        Some(millis) => millis as i64,
        None => 0,
    }
}

/// Audit timestamps follow the clock: of two elapsed times since the Unix epoch
/// that fit in 64 bits, the later never gives the earlier timestamp, and each
/// gives exactly its own count of milliseconds; a clock before the epoch gives
/// zero, which no elapsed time gives a smaller timestamp than.
pub proof fn lemma_audit_timestamps_follow_clock(earlier: Option<u128>, later: Option<u128>)
    requires
        earlier matches Some(e) ==> e <= i64::MAX,
        later matches Some(l) ==> l <= i64::MAX,
        earlier matches Some(e) ==> later matches Some(l) && e <= l,
    ensures
        timestamp_millis_for(earlier) <= timestamp_millis_for(later),
        earlier matches Some(e) ==> timestamp_millis_for(earlier) == e,
        later matches Some(l) ==> timestamp_millis_for(later) == l,
        timestamp_millis_for(earlier) >= 0,
{
}

/// Reads the current wall-clock time for audit fields in the runtime.
#[derive(Clone, Copy, Debug)]
pub struct SystemClock;

impl SystemClock {
    /// Returns the current Unix timestamp in milliseconds for handler audit
    /// fields, together with the whole milliseconds since the Unix epoch that the
    /// operating system clock reported (`None` when it reported a time before
    /// the epoch), from which the timestamp is taken.
    pub fn now_timestamp_millis(&self) -> (reading: (i64, Ghost<Option<u128>>))
        ensures
            reading.0 == timestamp_millis_for(reading.1@),
    {
        let now = system_time_now();
        let elapsed = match elapsed_since_unix_epoch(&now) {
            Some(duration) => Some(duration_as_millis(&duration)),
            None => None,
        };
        let millis = timestamp_millis_from_elapsed(elapsed);
        (millis, Ghost(elapsed))
    }
}

} // verus!
