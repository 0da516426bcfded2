//! Repositories as the tool models them: configured repositories, their
//! remotes, what a status query found, and the decisions that are made on
//! what git reports.

pub mod remote;
pub mod worktree;

use vstd::prelude::*;

use crate::text::{str_concat, str_concat3, regex_is_match, spec_regex_is_match, str_eq,
    str_starts_with, str_ends_with, strip_prefix, strip_prefix_spec, split_once,
    split_once_spec, rsplit_once, rsplit_once_spec};
use crate::{config, path, BranchName, SubmoduleName, Warning};

pub use remote::{RemoteName, RemoteType, RemoteUrl};
pub use worktree::{
    CleanupWorktreeError, CleanupWorktreeWarning, CleanupWorktreeWarningReason, TrackingDefault,
    TrackingSelection, Worktree, WorktreeConversionError, WorktreeName, WorktreeRemoveError,
    WorktreeSetup, WorktreeValidationError, WorktreeValidationErrorReason,
    GIT_MAIN_WORKTREE_DIRECTORY,
};

verus! {

broadcast use remote::RemoteName::lemma_spec_new_view, remote::RemoteUrl::lemma_spec_new_view;

/// The git configuration key that marks a repository as bare.
pub const GIT_CONFIG_BARE_KEY: &'static str = "core.bare";

/// The git configuration key of the default push behaviour.
pub const GIT_CONFIG_PUSH_DEFAULT: &'static str = "push.default";

/// Why removing a worktree failed.
#[derive(Debug)]
pub enum WorktreeRemoveFailureReason {
    Changes(String),
    Error(String),
    NotMerged(String),
}

/// Why converting a repository to a worktree setup failed.
#[derive(Debug)]
pub enum WorktreeConversionFailureReason {
    Changes,
    Ignored,
    Error(String),
}

/// The values of `push.default` that the tool sets.
#[derive(Clone, Copy, Debug, PartialEq, Eq, Structural)]
pub enum GitPushDefaultSetting {
    Upstream,
}

impl GitPushDefaultSetting {
    /// The text written to the git configuration.
    pub fn value(self) -> (r: &'static str)
        ensures
            r@ == "upstream"@,
    {
        match self {
            GitPushDefaultSetting::Upstream => "upstream",
        }
    }
}

/// A key of the git configuration.
#[derive(Debug)]
pub struct GitConfigKey(String);

impl View for GitConfigKey {
    type V = Seq<char>;

    closed spec fn view(&self) -> Seq<char> {
        self.0@
    }
}

impl GitConfigKey {
    pub fn new(key: String) -> (res: Self)
        ensures
            res@ == key@,
    {
        Self(key)
    }

    pub fn as_str(&self) -> (res: &str)
        ensures
            res@ == self@,
    {
        self.0.as_str()
    }
}

/// Errors of repository handling. Errors that git or the operating system
/// report are carried as their text.
#[derive(Debug)]
pub enum Error {
    ReadConfig { message: String, path: String },
    ParseConfig { message: String, path: String },
    Libgit { message: String },
    Io { message: String },
    Config(config::Error),
    NotFound,
    NoDefaultBranch,
    ErrorDefaultBranch { message: String },
    UnsupportedHttpRemote,
    UnsupportedGitRemote,
    UnimplementedRemoteProtocol,
    RefspecRenameFailed,
    NoBranchCheckedOut,
    GitConfigSetError { key: GitConfigKey, error: String },
    WorktreeConversionFailure(WorktreeConversionFailureReason),
    WorktreeRemovalFailure(WorktreeRemoveFailureReason),
    GettingChangesFromBareWorktree,
    NonPushableRemote,
    PushFailed { local_branch: BranchName, remote_name: RemoteName, remote_url: RemoteUrl, message: String },
    Path(path::Error),
    BranchNameNotUtf8,
    RemoteNameNotUtf8,
    RemoteBranchNameNotUtf8,
    WorktreeNameNotUtf8,
    SubmoduleNameNotUtf8,
    CannotGetBranchName { message: String },
    InvalidRemoteHeadPointer { name: String },
    RemoteHeadNoSymbolicTarget,
    InvalidRegex { message: String },
}

/// The message of a remote classification error.
pub open spec fn remote_error_message(e: Error) -> Seq<char> {
    match e {
        Error::UnsupportedHttpRemote => "Remotes using HTTP protocol are not supported"@,
        Error::UnsupportedGitRemote => "Remotes using git protocol are not supported"@,
        Error::UnimplementedRemoteProtocol => "The remote URL starts with an unimplemented protocol"@,
        Error::InvalidRegex { message } => "invalid regex: "@ + message@,
        _ => Seq::empty(),
    }
}

impl Error {
    /// The message of an error that classifying a remote URL gives.
    pub fn remote_type_message(&self) -> (r: String)
        ensures
            r@ == remote_error_message(*self),
    {
        match self {
            Error::UnsupportedHttpRemote => "Remotes using HTTP protocol are not supported".to_owned(),
            Error::UnsupportedGitRemote => "Remotes using git protocol are not supported".to_owned(),
            Error::UnimplementedRemoteProtocol => "The remote URL starts with an unimplemented protocol".to_owned(),
            Error::InvalidRegex { message } => crate::text::str_concat("invalid regex: ", message.as_str()),
            _ => String::new(),
        }
    }
}

/// A remote of a repository.
#[derive(Debug)]
pub struct Remote {
    pub name: RemoteName,
    pub url: RemoteUrl,
    pub remote_type: RemoteType,
}

impl Remote {
    /// This remote is the one that `c` configures.
    pub open spec fn describes_config(self, c: config::Remote) -> bool {
        &&& self.name@ == c.name@
        &&& self.url@ == c.url@
        &&& self.remote_type == remote::remote_type_from_config(c.remote_type)
    }

    /// The remote that a configuration entry describes.
    pub fn from_config(other: config::Remote) -> (res: Self)
        ensures
            res.describes_config(other),
    {
        Self {
            name: RemoteName::new(other.name),
            url: RemoteUrl::new(other.url),
            remote_type: RemoteType::from(other.remote_type),
        }
    }

    /// The configuration entry of this remote.
    pub fn into_config(self) -> (res: config::Remote)
        ensures
            self.describes_config(res),
    {
        let remote_type: config::RemoteType = config::RemoteType::from(self.remote_type);
        proof {
            remote::lemma_remote_type_round_trip(self.remote_type);
        }
        config::Remote { name: self.name.into_string(), url: self.url.into_string(), remote_type }
    }
}

/// The name of a repository.
#[derive(Debug, PartialEq, Eq)]
pub struct ProjectName(String);

impl View for ProjectName {
    type V = Seq<char>;

    closed spec fn view(&self) -> Seq<char> {
        self.0@
    }
}

impl Clone for ProjectName {
    fn clone(&self) -> (res: Self)
        ensures
            res@ == self@,
    {
        ProjectName(self.0.clone())
    }
}

impl ProjectName {
    pub fn new(from: String) -> (res: Self)
        ensures
            res@ == from@,
    {
        Self(from)
    }

    pub fn into_string(self) -> (res: String)
        ensures
            res@ == self@,
    {
        self.0
    }

    pub fn as_str(&self) -> (res: &str)
        ensures
            res@ == self@,
    {
        self.0.as_str()
    }
}

/// The namespace of a repository: the path of directories or forge groups
/// above it.
#[derive(Debug, PartialEq, Eq)]
pub struct ProjectNamespace(String);

impl View for ProjectNamespace {
    type V = Seq<char>;

    closed spec fn view(&self) -> Seq<char> {
        self.0@
    }
}

impl Clone for ProjectNamespace {
    fn clone(&self) -> (res: Self)
        ensures
            res@ == self@,
    {
        ProjectNamespace(self.0.clone())
    }
}

impl ProjectNamespace {
    pub fn new(from: String) -> (res: Self)
        ensures
            res@ == from@,
    {
        Self(from)
    }

    pub fn into_string(self) -> (res: String)
        ensures
            res@ == self@,
    {
        self.0
    }

    pub fn as_str(&self) -> (res: &str)
        ensures
            res@ == self@,
    {
        self.0.as_str()
    }
}

/// A repository: its name, the namespace it lies in, whether it uses a
/// worktree setup, and its remotes.
#[derive(Debug)]
pub struct Repo {
    pub name: ProjectName,
    pub namespace: Option<ProjectNamespace>,
    pub worktree_setup: bool,
    pub remotes: Vec<Remote>,
}

/// The full name of a repository: `namespace/name`, or the bare name.
pub open spec fn full_name(namespace: Option<Seq<char>>, name: Seq<char>) -> Seq<char> {
    match namespace {
        Some(ns) => ns + seq!['/'] + name,
        None => name,
    }
}

/// The namespace and name that a configured name stands for: what comes
/// before and after its last `/`.
pub open spec fn split_configured_name(name: Seq<char>) -> (Option<Seq<char>>, Seq<char>) {
    match rsplit_once_spec(name, '/') {
        Some((namespace, rest)) => (Some(namespace), rest),
        None => (None, name),
    }
}

/// The views of the remotes of a list.
pub open spec fn remotes_describe(remotes: Seq<Remote>, configs: Seq<config::Remote>) -> bool {
    &&& remotes.len() == configs.len()
    &&& forall|i: int| 0 <= i < remotes.len() ==> #[trigger] remotes[i].describes_config(configs[i])
}

impl Repo {
    /// The view of the optional namespace.
    pub open spec fn namespace_view(self) -> Option<Seq<char>> {
        match self.namespace {
            Some(ns) => Some(ns@),
            None => None,
        }
    }

    /// The configuration entry `c` gives this repository: its name, worktree
    /// setup and remotes. The namespace has no place in it.
    pub open spec fn describes_config(self, c: config::Repo) -> bool {
        &&& c.name@ == self.name@
        &&& c.worktree_setup == self.worktree_setup
        &&& c.remotes matches Some(rs) && remotes_describe(self.remotes@, rs@)
    }

    /// `namespace/name`, or the name alone when there is no namespace.
    pub fn fullname(&self) -> (res: ProjectName)
        ensures
            res@ == full_name(self.namespace_view(), self.name@),
    {
        match self.namespace {
            Some(ref namespace) => {
                proof {
                    reveal_strlit("/");
                }
                let s = str_concat3(namespace.as_str(), "/", self.name.as_str());
                assert("/"@ =~= seq!['/']);
                ProjectName::new(s)
            },
            None => ProjectName::new(self.name.as_str().to_owned()),
        }
    }

    /// Forgets the namespace.
    pub fn remove_namespace(&mut self)
        ensures
            final(self).namespace is None,
            final(self).name == old(self).name,
            final(self).worktree_setup == old(self).worktree_setup,
            final(self).remotes == old(self).remotes,
    {
        self.namespace = None;
    }

    /// The repository that a configuration entry describes: a name with a
    /// `/` is split at its last one into namespace and name.
    pub fn from_config(other: config::Repo) -> (res: Self)
        ensures
            res.namespace_view() == split_configured_name(other.name@).0,
            res.name@ == split_configured_name(other.name@).1,
            res.worktree_setup == other.worktree_setup,
            match other.remotes {
                Some(rs) => remotes_describe(res.remotes@, rs@),
                None => res.remotes@.len() == 0,
            },
    {
        let config::Repo { name, worktree_setup, remotes } = other;
        let (namespace, name) = match rsplit_once(name.as_str(), '/') {
            Some((namespace, name)) => (Some(ProjectNamespace::new(namespace)), ProjectName::new(name)),
            None => (None, ProjectName::new(name)),
        };
        let remotes = match remotes {
            Some(remotes) => remotes_from_config(remotes),
            None => Vec::new(),
        };
        Self { name, namespace, worktree_setup, remotes }
    }

    /// The configuration entry of this repository.
    pub fn into_config(self) -> (res: config::Repo)
        ensures
            self.describes_config(res),
    {
        let Repo { name, namespace: _, worktree_setup, remotes } = self;
        let ghost rs = remotes@;
        let remotes = remotes_into_config(remotes);
        config::Repo { name: name.into_string(), worktree_setup, remotes: Some(remotes) }
    }
}

/// The remotes that configuration entries describe, in order.
pub fn remotes_from_config(remotes: Vec<config::Remote>) -> (res: Vec<Remote>)
    ensures
        remotes_describe(res@, remotes@),
{
    let mut res: Vec<Remote> = Vec::new();
    let mut rest = remotes;
    let ghost original = rest@;
    let n = rest.len();
    while rest.len() > 0
        invariant
            n == original.len(),
            res.len() + rest.len() == n,
            rest@ == original.subrange(res.len() as int, n as int),
            forall|j: int| 0 <= j < res.len() ==> #[trigger] res[j].describes_config(original[j]),
        decreases rest.len(),
    {
        let r = rest.remove(0);
        proof {
            assert(r == original[res.len() as int]);
        }
        res.push(Remote::from_config(r));
        proof {
            assert(rest@ =~= original.subrange(res.len() as int, n as int));
        }
    }
    res
}

/// The configuration entries of remotes, in order.
pub fn remotes_into_config(remotes: Vec<Remote>) -> (res: Vec<config::Remote>)
    ensures
        remotes_describe(remotes@, res@),
{
    let mut res: Vec<config::Remote> = Vec::new();
    let mut rest = remotes;
    let ghost original = rest@;
    let n = rest.len();
    while rest.len() > 0
        invariant
            n == original.len(),
            res.len() + rest.len() == n,
            rest@ == original.subrange(res.len() as int, n as int),
            forall|j: int| 0 <= j < res.len() ==> #[trigger] original[j].describes_config(res[j]),
        decreases rest.len(),
    {
        let r = rest.remove(0);
        proof {
            assert(r == original[res.len() as int]);
        }
        res.push(r.into_config());
        proof {
            assert(rest@ =~= original.subrange(res.len() as int, n as int));
        }
    }
    res
}

/// The configuration entries of repositories, in order.
pub fn repos_into_config(repos: Vec<Repo>) -> (res: Vec<config::Repo>)
    ensures
        res.len() == repos.len(),
        forall|i: int| 0 <= i < repos.len() ==> #[trigger] repos[i].describes_config(res[i]),
{
    let mut res: Vec<config::Repo> = Vec::new();
    let mut rest = repos;
    let ghost original = rest@;
    let n = rest.len();
    while rest.len() > 0
        invariant
            n == original.len(),
            res.len() + rest.len() == n,
            rest@ == original.subrange(res.len() as int, n as int),
            forall|j: int| 0 <= j < res.len() ==> #[trigger] original[j].describes_config(res[j]),
        decreases rest.len(),
    {
        let r = rest.remove(0);
        proof {
            assert(r == original[res.len() as int]);
        }
        res.push(r.into_config());
        proof {
            assert(rest@ =~= original.subrange(res.len() as int, n as int));
        }
    }
    res
}

/// The repositories that configuration entries describe, in order.
pub fn repos_from_config(repos: Vec<config::Repo>) -> (res: Vec<Repo>)
    ensures
        res.len() == repos.len(),
        forall|i: int|
            0 <= i < repos.len() ==> {
                &&& (#[trigger] res[i]).namespace_view() == split_configured_name(repos[i].name@).0
                &&& res[i].name@ == split_configured_name(repos[i].name@).1
                &&& res[i].worktree_setup == repos[i].worktree_setup
            },
{
    let mut res: Vec<Repo> = Vec::new();
    let mut rest = repos;
    let ghost original = rest@;
    let n = rest.len();
    while rest.len() > 0
        invariant
            n == original.len(),
            res.len() + rest.len() == n,
            rest@ == original.subrange(res.len() as int, n as int),
            forall|j: int|
                0 <= j < res.len() ==> {
                    &&& (#[trigger] res[j]).namespace_view() == split_configured_name(original[j].name@).0
                    &&& res[j].name@ == split_configured_name(original[j].name@).1
                    &&& res[j].worktree_setup == original[j].worktree_setup
                },
        decreases rest.len(),
    {
        let r = rest.remove(0);
        proof {
            assert(r == original[res.len() as int]);
        }
        res.push(Repo::from_config(r));
        proof {
            assert(rest@ =~= original.subrange(res.len() as int, n as int));
        }
    }
    res
}

/// Converting a repository without a `/` in its configured name from its
/// configuration entry and back gives the same name and worktree setup.
pub proof fn law_config_round_trip_without_namespace(c: config::Repo, r: Repo, back: config::Repo)
    requires
        !c.name@.contains('/'),
        r.namespace_view() == split_configured_name(c.name@).0,
        r.name@ == split_configured_name(c.name@).1,
        r.worktree_setup == c.worktree_setup,
        r.describes_config(back),
    ensures
        back.name@ == c.name@,
        back.worktree_setup == c.worktree_setup,
        r.namespace is None,
{
    if exists|i: int| 0 <= i < c.name@.len() && c.name@[i] == '/' {
        let i = choose|i: int| 0 <= i < c.name@.len() && c.name@[i] == '/';
        assert(c.name@.contains('/'));
    }
}

/// The full name of the repository that a configured name describes is
/// that name: splitting it at its last `/` and joining the parts again
/// gives it back.
pub proof fn law_full_name_restores_configured_name(name: Seq<char>)
    ensures
        full_name(split_configured_name(name).0, split_configured_name(name).1) == name,
{
    crate::text::lemma_last_index_of_spec(name, '/');
    match crate::text::last_index_of(name, '/') {
        Some(i) => {
            assert(name.subrange(0, i) + seq!['/'] + name.subrange(i + 1, name.len() as int) =~= name);
        },
        None => {},
    }
}

/// How new worktree branches track remote branches.
pub struct TrackingConfig {
    pub default: bool,
    pub default_remote: RemoteName,
    pub default_remote_prefix: Option<String>,
}

impl TrackingConfig {
    pub fn from_config(other: config::TrackingConfig) -> (res: Self)
        ensures
            res.default == other.default,
            res.default_remote@ == other.default_remote@,
            res.default_remote_prefix == other.default_remote_prefix,
    {
        Self {
            default: other.default,
            default_remote: RemoteName::new(other.default_remote),
            default_remote_prefix: other.default_remote_prefix,
        }
    }
}

/// The configuration at the root of a worktree setup.
pub struct WorktreeRootConfig {
    pub persistent_branches: Option<Vec<BranchName>>,
    pub track: Option<TrackingConfig>,
}

/// The branch names that `names` hold, in order.
pub fn branch_names(names: Vec<String>) -> (res: Vec<BranchName>)
    ensures
        res.len() == names.len(),
        forall|i: int| 0 <= i < names.len() ==> #[trigger] res[i]@ == names[i]@,
{
    let mut res: Vec<BranchName> = Vec::new();
    let mut rest = names;
    let ghost original = rest@;
    let n = rest.len();
    while rest.len() > 0
        invariant
            n == original.len(),
            res.len() + rest.len() == n,
            rest@ == original.subrange(res.len() as int, n as int),
            forall|j: int| 0 <= j < res.len() ==> #[trigger] res[j]@ == original[j]@,
        decreases rest.len(),
    {
        let s = rest.remove(0);
        proof {
            assert(s == original[res.len() as int]);
        }
        res.push(BranchName::new(s));
        proof {
            assert(rest@ =~= original.subrange(res.len() as int, n as int));
        }
    }
    res
}

impl WorktreeRootConfig {
    pub fn from_config(other: config::WorktreeRootConfig) -> (res: Self)
        ensures
            match (res.persistent_branches, other.persistent_branches) {
                (Some(a), Some(b)) => a.len() == b.len() && forall|i: int|
                    0 <= i < a.len() ==> #[trigger] a[i]@ == b[i]@,
                (None, None) => true,
                _ => false,
            },
            match (res.track, other.track) {
                (Some(a), Some(b)) => a.default == b.default && a.default_remote@ == b.default_remote@
                    && a.default_remote_prefix == b.default_remote_prefix,
                (None, None) => true,
                _ => false,
            },
    {
        let config::WorktreeRootConfig { persistent_branches, track } = other;
        Self {
            persistent_branches: match persistent_branches {
                Some(branches) => Some(branch_names(branches)),
                None => None,
            },
            track: match track {
                Some(track) => Some(TrackingConfig::from_config(track)),
                None => None,
            },
        }
    }
}

/// Counts of changed files in a working tree.
#[derive(Debug, Clone, Copy, PartialEq, Eq, Structural)]
pub struct RepoChanges {
    pub files_new: usize,
    pub files_modified: usize,
    pub files_deleted: usize,
}

/// The state of a submodule.
#[derive(Debug, Clone, Copy, PartialEq, Eq, Structural)]
pub enum SubmoduleStatus {
    Clean,
    Uninitialized,
    Changed,
    OutOfDate,
}

/// How a local branch relates to its remote tracking branch.
#[derive(Debug, Clone, Copy, PartialEq, Eq, Structural)]
pub enum RemoteTrackingStatus {
    UpToDate,
    Ahead(usize),
    Behind(usize),
    Diverged(usize, usize),
}

impl RemoteTrackingStatus {
    /// The status of a branch that is `ahead` commits ahead of its remote
    /// branch and `behind` commits behind it.
    pub fn from_ahead_behind(ahead: usize, behind: usize) -> (r: Self)
        ensures
            ahead == 0 && behind == 0 ==> r == RemoteTrackingStatus::UpToDate,
            ahead == 0 && behind != 0 ==> r == RemoteTrackingStatus::Behind(behind),
            ahead != 0 && behind == 0 ==> r == RemoteTrackingStatus::Ahead(ahead),
            ahead != 0 && behind != 0 ==> r == RemoteTrackingStatus::Diverged(ahead, behind),
    {
        if ahead == 0 && behind == 0 {
            RemoteTrackingStatus::UpToDate
        } else if ahead == 0 {
            RemoteTrackingStatus::Behind(behind)
        } else if behind == 0 {
            RemoteTrackingStatus::Ahead(ahead)
        } else {
            RemoteTrackingStatus::Diverged(ahead, behind)
        }
    }
}

/// An operation that git is in the middle of.
#[derive(Debug, Clone, Copy, PartialEq, Eq, Structural)]
pub enum RepoOperation {
    Merge,
    Revert,
    RevertSequence,
    CherryPick,
    CherryPickSequence,
    Bisect,
    Rebase,
    RebaseInteractive,
    RebaseMerge,
    ApplyMailbox,
    ApplyMailboxOrRebase,
}

/// What a status query found in a repository.
pub struct RepoStatus {
    pub operation: Option<RepoOperation>,
    pub empty: bool,
    pub remotes: Vec<RemoteName>,
    pub head: Option<BranchName>,
    pub changes: Option<RepoChanges>,
    pub worktrees: usize,
    pub submodules: Option<Vec<(SubmoduleName, SubmoduleStatus)>>,
    pub branches: Vec<(BranchName, Option<(BranchName, RemoteTrackingStatus)>)>,
}

/// No file has changed.
pub open spec fn changes_clean(changes: Option<RepoChanges>) -> bool {
    match changes {
        None => true,
        Some(c) => c.files_new == 0 && c.files_deleted == 0 && c.files_modified == 0,
    }
}

impl RepoStatus {
    /// No file has changed.
    pub fn clean(&self) -> (r: bool)
        ensures
            r == changes_clean(self.changes),
    {
        match self.changes {
            None => true,
            Some(ref changes) => changes.files_new == 0 && changes.files_deleted == 0
                && changes.files_modified == 0,
        }
    }
}

/// The status flags that git reports for one file.
#[derive(Debug, Clone, Copy)]
pub struct FileStatus {
    pub index_new: bool,
    pub index_modified: bool,
    pub index_deleted: bool,
    pub index_renamed: bool,
    pub index_typechange: bool,
    pub wt_new: bool,
    pub wt_modified: bool,
    pub wt_deleted: bool,
    pub wt_typechange: bool,
    pub wt_renamed: bool,
    pub ignored: bool,
}

/// How a changed file is counted: as modified, as new, as deleted, or not at
/// all, in that order of precedence.
pub enum ChangeKind {
    Modified,
    New,
    Deleted,
    Other,
}

pub open spec fn file_is_modified(s: FileStatus) -> bool {
    s.index_modified || s.index_renamed || s.index_typechange || s.wt_modified || s.wt_renamed
        || s.wt_typechange
}

pub open spec fn file_is_new(s: FileStatus) -> bool {
    !file_is_modified(s) && (s.index_new || s.wt_new)
}

pub open spec fn file_is_deleted(s: FileStatus) -> bool {
    !file_is_modified(s) && !(s.index_new || s.wt_new) && (s.index_deleted || s.wt_deleted)
}

/// The number of files of `statuses` that `kind` holds of.
pub open spec fn count_where(statuses: Seq<FileStatus>, kind: spec_fn(FileStatus) -> bool) -> nat
    decreases statuses.len(),
{
    if statuses.len() == 0 {
        0
    } else {
        count_where(statuses.drop_last(), kind) + if kind(statuses.last()) { 1nat } else { 0nat }
    }
}

/// `n` capped at the largest `usize`.
pub open spec fn saturate(n: nat) -> usize {
    if n > usize::MAX { usize::MAX } else { n as usize }
}

/// The change counts of the files a status query listed: `None` when it
/// listed none.
pub open spec fn changes_of(statuses: Seq<FileStatus>) -> Option<RepoChanges> {
    if statuses.len() == 0 {
        None
    } else {
        Some(RepoChanges {
            files_new: saturate(count_where(statuses, |s: FileStatus| file_is_new(s))),
            files_modified: saturate(count_where(statuses, |s: FileStatus| file_is_modified(s))),
            files_deleted: saturate(count_where(statuses, |s: FileStatus| file_is_deleted(s))),
        })
    }
}

/// Adds one to `n`, stopping at the largest value.
fn saturating_inc(n: usize) -> (r: usize)
    ensures
        r == if n == usize::MAX { usize::MAX } else { (n + 1) as usize },
{
    if n == usize::MAX {
        n
    } else {
        n + 1
    }
}

proof fn lemma_saturate_step(n: nat)
    ensures
        saturate(n + 1) == if saturate(n) == usize::MAX { usize::MAX } else { (saturate(n) + 1) as usize },
{
}

/// Counts new, modified and deleted files among what a status query listed.
/// A listing in which no file counts is a fault of git that the caller
/// rules out before the call.
pub fn count_changes(statuses: &Vec<FileStatus>) -> (r: Option<RepoChanges>)
    requires
        statuses.len() > 0 ==> exists|i: int|
            0 <= i < statuses.len() && (file_is_new(#[trigger] statuses[i])
                || file_is_modified(statuses[i]) || file_is_deleted(statuses[i])),
    ensures
        r == changes_of(statuses@),
        r matches Some(c) ==> (c.files_new, c.files_modified, c.files_deleted) != (0usize, 0usize, 0usize),
{
    if statuses.len() == 0 {
        return None;
    }
    let mut files_new: usize = 0;
    let mut files_modified: usize = 0;
    let mut files_deleted: usize = 0;
    let mut i: usize = 0;
    let n = statuses.len();
    while i < n
        invariant
            n == statuses.len(),
            i <= n,
            files_new == saturate(count_where(statuses@.subrange(0, i as int), |s: FileStatus| file_is_new(s))),
            files_modified == saturate(count_where(statuses@.subrange(0, i as int), |s: FileStatus| file_is_modified(s))),
            files_deleted == saturate(count_where(statuses@.subrange(0, i as int), |s: FileStatus| file_is_deleted(s))),
            (files_new, files_modified, files_deleted) == (0usize, 0usize, 0usize) ==> forall|j: int|
                0 <= j < i ==> !(file_is_new(#[trigger] statuses[j]) || file_is_modified(statuses[j])
                    || file_is_deleted(statuses[j])),
        decreases n - i,
    {
        let s = statuses[i];
        let ghost prefix = statuses@.subrange(0, i as int);
        let ghost next = statuses@.subrange(0, i + 1);
        assert(next.drop_last() =~= prefix);
        assert(next.last() == s);
        proof {
            lemma_saturate_step(count_where(prefix, |s: FileStatus| file_is_new(s)));
            lemma_saturate_step(count_where(prefix, |s: FileStatus| file_is_modified(s)));
            lemma_saturate_step(count_where(prefix, |s: FileStatus| file_is_deleted(s)));
        }
        if s.index_modified || s.index_renamed || s.index_typechange || s.wt_modified
            || s.wt_renamed || s.wt_typechange {
            files_modified = saturating_inc(files_modified);
        } else if s.index_new || s.wt_new {
            files_new = saturating_inc(files_new);
        } else if s.index_deleted || s.wt_deleted {
            files_deleted = saturating_inc(files_deleted);
        }
        i = i + 1;
    }
    assert(statuses@.subrange(0, n as int) =~= statuses@);
    Some(RepoChanges { files_new, files_modified, files_deleted })
}

/// A status query listed a file that is ignored.
pub fn has_ignored_files(statuses: &Vec<FileStatus>) -> (r: bool)
    ensures
        r == exists|i: int| 0 <= i < statuses.len() && (#[trigger] statuses[i]).ignored,
{
    let mut i: usize = 0;
    while i < statuses.len()
        invariant
            i <= statuses.len(),
            forall|j: int| 0 <= j < i ==> !(#[trigger] statuses[j]).ignored,
        decreases statuses.len() - i,
    {
        if statuses[i].ignored {
            return true;
        }
        i = i + 1;
    }
    false
}

/// The status flags that git reports for a submodule's working directory.
#[derive(Debug, Clone, Copy)]
pub struct SubmoduleFlags {
    pub wd_index_modified: bool,
    pub wd_wd_modified: bool,
    pub wd_untracked: bool,
    pub wd_uninitialized: bool,
    pub wd_modified: bool,
}

/// The state of a submodule with the given flags.
pub open spec fn submodule_status_spec(f: SubmoduleFlags) -> SubmoduleStatus {
    if f.wd_index_modified || f.wd_wd_modified || f.wd_untracked {
        SubmoduleStatus::Changed
    } else if f.wd_uninitialized {
        SubmoduleStatus::Uninitialized
    } else if f.wd_modified {
        SubmoduleStatus::OutOfDate
    } else {
        SubmoduleStatus::Clean
    }
}

/// The state of a submodule with the given flags.
pub fn submodule_status(f: SubmoduleFlags) -> (r: SubmoduleStatus)
    ensures
        r == submodule_status_spec(f),
{
    if f.wd_index_modified || f.wd_wd_modified || f.wd_untracked {
        SubmoduleStatus::Changed
    } else if f.wd_uninitialized {
        SubmoduleStatus::Uninitialized
    } else if f.wd_modified {
        SubmoduleStatus::OutOfDate
    } else {
        SubmoduleStatus::Clean
    }
}

/// The pattern of a remote URL in scp syntax, such as `git@host:path.git`.
pub const SCP_LIKE_URL_PATTERN: &'static str = r"^[a-zA-Z]+@.*$";

/// The protocol of a remote URL, given whether it matches
/// `SCP_LIKE_URL_PATTERN`.
pub open spec fn remote_type_of(url: Seq<char>, scp_like: bool) -> Result<RemoteType, Error> {
    if "ssh://"@.is_prefix_of(url) {
        Ok(RemoteType::Ssh)
    } else if scp_like && ".git"@.is_suffix_of(url) {
        Ok(RemoteType::Ssh)
    } else if "https://"@.is_prefix_of(url) {
        Ok(RemoteType::Https)
    } else if "file://"@.is_prefix_of(url) {
        Ok(RemoteType::File)
    } else if "http://"@.is_prefix_of(url) {
        Err(Error::UnsupportedHttpRemote)
    } else if "git://"@.is_prefix_of(url) {
        Err(Error::UnsupportedGitRemote)
    } else {
        Err(Error::UnimplementedRemoteProtocol)
    }
}

/// The protocol of a remote URL, given whether it matches
/// `SCP_LIKE_URL_PATTERN`: `ssh://` and scp-like URLs ending in `.git` are
/// SSH, `https://` is HTTPS and `file://` is a local path; plain HTTP and
/// the git protocol are refused, and anything else is unknown.
pub fn classify_remote_url(url: &str, scp_like: bool) -> (r: Result<RemoteType, Error>)
    ensures
        r == remote_type_of(url@, scp_like),
{
    if str_starts_with(url, "ssh://") {
        return Ok(RemoteType::Ssh);
    }
    if scp_like && str_ends_with(url, ".git") {
        return Ok(RemoteType::Ssh);
    }
    if str_starts_with(url, "https://") {
        return Ok(RemoteType::Https);
    }
    if str_starts_with(url, "file://") {
        return Ok(RemoteType::File);
    }
    if str_starts_with(url, "http://") {
        return Err(Error::UnsupportedHttpRemote);
    }
    if str_starts_with(url, "git://") {
        return Err(Error::UnsupportedGitRemote);
    }
    Err(Error::UnimplementedRemoteProtocol)
}

/// The protocol of a remote URL. Whether it is scp-like is decided by the
/// regex crate on `SCP_LIKE_URL_PATTERN`; should the pattern not build, the
/// error says why.
pub fn detect_remote_type(remote_url: &RemoteUrl) -> (r: Result<RemoteType, Error>)
    ensures
        match spec_regex_is_match(SCP_LIKE_URL_PATTERN@, remote_url@) {
            Ok(m) => r == remote_type_of(remote_url@, m),
            Err(message) => r matches Err(Error::InvalidRegex { message: e }) && e@ == message,
        },
{
    let url = remote_url.as_str();
    match regex_is_match(SCP_LIKE_URL_PATTERN, url) {
        Ok(scp_like) => classify_remote_url(url, scp_like),
        Err(message) => Err(Error::InvalidRegex { message }),
    }
}

/// Whether a remote with this URL can be pushed to: SSH and local remotes
/// can, HTTPS remotes cannot.
pub fn is_pushable_url(remote_url: &RemoteUrl) -> (r: Result<bool, Error>)
    ensures
        match spec_regex_is_match(SCP_LIKE_URL_PATTERN@, remote_url@) {
            Ok(m) => match remote_type_of(remote_url@, m) {
                Ok(t) => r == Ok::<bool, Error>(t == RemoteType::Ssh || t == RemoteType::File),
                Err(e) => r == Err::<bool, Error>(e),
            },
            Err(message) => r matches Err(Error::InvalidRegex { message: m }) && m@ == message,
        },
{
    let remote_type = detect_remote_type(remote_url)?;
    Ok(remote_type == RemoteType::Ssh || remote_type == RemoteType::File)
}

/// `remote/branch`, the name of a remote branch.
pub fn remote_branch_name(remote_name: &RemoteName, branch_name: &BranchName) -> (r: String)
    ensures
        r@ == remote_name@ + "/"@ + branch_name@,
{
    str_concat3(remote_name.as_str(), "/", branch_name.as_str())
}

/// The refspec that pushes a local branch to a remote branch, forced.
pub fn push_refspec(local_branch_name: &BranchName, remote_branch_name: &BranchName) -> (r: String)
    ensures
        r@ == "+refs/heads/"@ + local_branch_name@ + ":refs/heads/"@ + remote_branch_name@,
{
    let mut r = str_concat3("+refs/heads/", local_branch_name.as_str(), ":refs/heads/");
    r.append(remote_branch_name.as_str());
    r
}

/// What a branch name is without the part up to its first `/`.
pub open spec fn basename_of(name: Seq<char>) -> Seq<char> {
    match split_once_spec(name, '/') {
        Some((_, basename)) => basename,
        None => name,
    }
}

/// The name of a remote branch without its remote: what follows the first
/// `/`.
pub fn branch_basename(name: &BranchName) -> (r: BranchName)
    ensures
        r@ == basename_of(name@),
{
    match split_once(name.as_str(), '/') {
        Some((_prefix, basename)) => BranchName::new(basename),
        None => name.clone(),
    }
}

/// The local branch that the symbolic target of `<remote>/HEAD` points to.
pub open spec fn remote_head_target(remote: Seq<char>, pointer: Option<Seq<char>>) -> Result<Seq<char>, Seq<char>> {
    match pointer {
        None => Err(Seq::empty()),
        Some(p) => match strip_prefix_spec(p, "refs/remotes/"@ + remote + "/"@) {
            Some(branch) => Ok(branch),
            None => Err(p),
        },
    }
}

/// The local branch that `<remote>/HEAD` points to, given its symbolic
/// target: the target without `refs/remotes/<remote>/`. A missing target,
/// or one elsewhere, is an error.
pub fn remote_head_branch(remote_name: &RemoteName, pointer: Option<&str>) -> (r: Result<BranchName, Error>)
    ensures
        match pointer {
            None => r matches Err(Error::RemoteHeadNoSymbolicTarget),
            Some(p) => match strip_prefix_spec(p@, "refs/remotes/"@ + remote_name@ + "/"@) {
                Some(branch) => r matches Ok(b) && b@ == branch,
                None => r matches Err(Error::InvalidRemoteHeadPointer { name }) && name@ == p@,
            },
        },
{
    match pointer {
        None => Err(Error::RemoteHeadNoSymbolicTarget),
        Some(pointer_name) => {
            let prefix = str_concat3("refs/remotes/", remote_name.as_str(), "/");
            match strip_prefix(pointer_name, prefix.as_str()) {
                Some(branch) => Ok(BranchName::new(branch)),
                None => Err(Error::InvalidRemoteHeadPointer { name: pointer_name.to_owned() }),
            }
        },
    }
}

/// All names are equal to the first.
pub open spec fn all_same(names: Seq<Seq<char>>) -> bool {
    forall|i: int| 0 <= i < names.len() ==> #[trigger] names[i] == names[0]
}

/// The views of a list of branch names.
pub open spec fn branch_views(names: Seq<BranchName>) -> Seq<Seq<char>> {
    names.map_values(|b: BranchName| b@)
}

/// The names of the local branches tried, in order, when no remote tells the
/// default branch.
pub open spec fn fallback_default_branches() -> Seq<Seq<char>> {
    seq!["main"@, "master"@]
}

/// Whether the default branches that the remotes report settle the default
/// branch: at least one remote reports one, and all agree.
pub fn remote_defaults_agree(defaults: &Vec<BranchName>) -> (r: bool)
    ensures
        r == (defaults.len() > 0 && all_same(branch_views(defaults@))),
{
    if defaults.len() == 0 {
        return false;
    }
    let mut i: usize = 1;
    while i < defaults.len()
        invariant
            1 <= i <= defaults.len(),
            forall|j: int| 0 <= j < i ==> #[trigger] defaults[j]@ == defaults[0]@,
        decreases defaults.len() - i,
    {
        if !str_eq(defaults[i].as_str(), defaults[0].as_str()) {
            proof {
                assert(branch_views(defaults@)[i as int] != branch_views(defaults@)[0]);
            }
            return false;
        }
        i = i + 1;
    }
    proof {
        assert forall|j: int| 0 <= j < branch_views(defaults@).len() implies
            #[trigger] branch_views(defaults@)[j] == branch_views(defaults@)[0] by {
            assert(defaults[j]@ == defaults[0]@);
        }
    }
    true
}

/// The name of the ancestor directories of a relative path, from its parent
/// up: `a/b/c` has `a/b` and `a`.
pub open spec fn ancestors_spec(path: Seq<char>) -> Seq<Seq<char>>
    decreases path.len(),
{
    match rsplit_once_spec(path, '/') {
        Some((parent, _)) => if parent.len() < path.len() {
            seq![parent] + ancestors_spec(parent)
        } else {
            Seq::empty()
        },
        None => Seq::empty(),
    }
}

/// Which branch is the default branch: the one the remotes report, when at
/// least one reports one and all agree; otherwise a local `main`, then a
/// local `master`; otherwise there is none.
pub open spec fn spec_default_branch(remote_defaults: Seq<Seq<char>>, has_main: bool, has_master: bool) -> Option<Seq<char>> {
    if remote_defaults.len() > 0 && all_same(remote_defaults) {
        Some(remote_defaults[0])
    } else if has_main {
        Some("main"@)
    } else if has_master {
        Some("master"@)
    } else {
        None
    }
}

/// The name of the default branch; see `spec_default_branch`.
/// `remote_defaults` holds the default branches that the remotes report,
/// in the order of the remotes; `has_main` and `has_master` tell whether
/// those local branches exist.
pub fn choose_default_branch(remote_defaults: &Vec<BranchName>, has_main: bool, has_master: bool) -> (r: Result<BranchName, Error>)
    ensures
        match spec_default_branch(branch_views(remote_defaults@), has_main, has_master) {
            Some(b) => r matches Ok(name) && name@ == b,
            None => r matches Err(Error::NoDefaultBranch),
        },
{
    if remote_defaults_agree(remote_defaults) {
        assert(branch_views(remote_defaults@)[0] == remote_defaults[0]@);
        Ok(remote_defaults[0].clone())
    } else if has_main {
        Ok(BranchName::new("main".to_owned()))
    } else if has_master {
        Ok(BranchName::new("master".to_owned()))
    } else {
        Err(Error::NoDefaultBranch)
    }
}

/// How bringing a worktree's branch up to date starts.
pub enum UpdateStart {
    /// Go ahead, stashing the changes first when `stash` is set.
    Proceed { stash: bool },
    /// Leave the worktree alone, with this warning.
    Skip(Warning),
}

/// How bringing a worktree's branch up to date starts: a worktree without
/// changes goes ahead; one with changes goes ahead with its changes stashed
/// when asked to, and is left alone otherwise.
pub fn update_start(clean: bool, stash: bool) -> (r: UpdateStart)
    ensures
        clean ==> r matches UpdateStart::Proceed { stash: false },
        !clean && stash ==> r matches UpdateStart::Proceed { stash: true },
        !clean && !stash ==> (r matches UpdateStart::Skip(w) && w@ == "Worktree contains changes"@),
{
    if clean {
        UpdateStart::Proceed { stash: false }
    } else if stash {
        UpdateStart::Proceed { stash: true }
    } else {
        UpdateStart::Skip(Warning::new("Worktree contains changes".to_owned()))
    }
}

/// The warning about a worktree branch without upstream.
pub fn no_upstream_warning() -> (r: Warning)
    ensures
        r@ == "No remote branch to rebase onto"@,
{
    Warning::new("No remote branch to rebase onto".to_owned())
}

/// What a fast-forward does, given git's merge analysis: nothing when the
/// branch is up to date; a warning when it cannot be fast-forwarded; the
/// fast-forward otherwise.
pub fn fast_forward_outcome(up_to_date: bool, fast_forward_possible: bool) -> (r: Option<Option<Warning>>)
    ensures
        up_to_date ==> r matches Some(None),
        !up_to_date && !fast_forward_possible ==> (r matches Some(Some(w)) && w@ == "Worktree cannot be fast forwarded"@),
        !up_to_date && fast_forward_possible ==> r is None,
{
    if up_to_date {
        Some(None)
    } else if !fast_forward_possible {
        Some(Some(Warning::new("Worktree cannot be fast forwarded".to_owned())))
    } else {
        None
    }
}

/// A remote turned into its configuration entry and back is the same
/// remote.
pub proof fn law_remote_config_round_trip(r: Remote, c: config::Remote, back: Remote)
    requires
        r.describes_config(c),
        back.describes_config(c),
    ensures
        back.name@ == r.name@,
        back.url@ == r.url@,
        back.remote_type == r.remote_type,
{
}

/// The local branch set up for a remote branch after a clone: the remote
/// branch's name without its remote, unless that is `HEAD`, which cannot be
/// checked out.
pub fn local_branch_for_remote_branch(remote_branch: &BranchName) -> (r: Option<BranchName>)
    ensures
        basename_of(remote_branch@) == "HEAD"@ ==> r is None,
        basename_of(remote_branch@) != "HEAD"@ ==> (r matches Some(b) && b@ == basename_of(remote_branch@)),
{
    let local = branch_basename(remote_branch);
    if str_eq(local.as_str(), "HEAD") {
        None
    } else {
        Some(local)
    }
}

/// A clone names its remote `origin`; a remote configured under another
/// name is renamed after the clone.
pub fn remote_needs_rename(remote_name: &RemoteName) -> (r: bool)
    ensures
        r == (remote_name@ != "origin"@),
{
    !str_eq(remote_name.as_str(), "origin")
}

} // verus!
