//! Errors and warnings of worktree handling.

use vstd::prelude::*;
use vstd::std_specs::convert::FromSpecImpl;

use crate::repo::{self, RemoteName, RepoChanges, WorktreeName};
use crate::{config, path, BranchName};

verus! {

/// Errors of worktree handling.
#[derive(Debug)]
pub enum Error {
    Libgit { message: String },
    Repo(repo::Error),
    Config(config::Error),
    InvalidWorktreeName(WorktreeValidationError),
    RemoteNotFound { name: RemoteName },
    RemoteNotPushable { name: RemoteName },
    Io { message: String },
    NotAWorktreeSetup,
    WorktreeAlreadyExists { name: WorktreeName },
    BranchNotFound(BranchName),
    WorktreeNameNotUtf8,
    Path(path::Error),
    InvalidBaseDirectory { git_dir: String },
}

/// A worktree name that cannot be used, and why.
#[derive(Debug)]
pub struct WorktreeValidationError {
    pub(crate) name: String,
    pub(crate) reason: WorktreeValidationErrorReason,
}

impl WorktreeValidationError {
    pub closed spec fn spec_name(&self) -> Seq<char> {
        self.name@
    }

    pub closed spec fn spec_reason(&self) -> WorktreeValidationErrorReason {
        self.reason
    }

    pub(crate) fn new(name: String, reason: WorktreeValidationErrorReason) -> (r: Self)
        ensures
            r.spec_name() == name@,
            r.spec_reason() == reason,
    {
        Self { name, reason }
    }

    pub fn name(&self) -> (r: &str)
        ensures
            r@ == self.spec_name(),
    {
        self.name.as_str()
    }

    pub fn reason(&self) -> (r: WorktreeValidationErrorReason)
        ensures
            r == self.spec_reason(),
    {
        self.reason
    }
}

/// Why a worktree name cannot be used.
#[derive(Debug, Clone, Copy, PartialEq, Eq, Structural)]
pub enum WorktreeValidationErrorReason {
    SlashAtStartOrEnd,
    ConsecutiveSlashes,
    ContainsWhitespace,
}

impl WorktreeValidationErrorReason {
    /// The text that describes the reason.
    pub fn message(&self) -> (r: &'static str)
        ensures
            *self == WorktreeValidationErrorReason::SlashAtStartOrEnd ==> r@ == "Cannot start or end with a slash"@,
            *self == WorktreeValidationErrorReason::ConsecutiveSlashes ==> r@ == "Cannot contain two consecutive slashes"@,
            *self == WorktreeValidationErrorReason::ContainsWhitespace ==> r@ == "Cannot contain whitespace"@,
    {
        match *self {
            Self::SlashAtStartOrEnd => "Cannot start or end with a slash",
            Self::ConsecutiveSlashes => "Cannot contain two consecutive slashes",
            Self::ContainsWhitespace => "Cannot contain whitespace",
        }
    }
}

/// Why a worktree was not removed.
#[derive(Debug)]
pub enum WorktreeRemoveError {
    RepoError(repo::Error),
    DoesNotExist(String),
    BranchNameMismatch { worktree_name: WorktreeName, branch_name: BranchName },
    BranchNotFound(BranchName),
    Changes(RepoChanges),
    NotMerged { branch_name: BranchName },
    NotInSyncWithRemote { branch_name: BranchName },
    NoRemoteTrackingBranch { branch_name: BranchName },
    RemoveError { path: String, error: String },
    ReadDirectoryError { path: String, error: String },
}

impl From<repo::Error> for WorktreeRemoveError {
    fn from(value: repo::Error) -> Self {
        Self::RepoError(value)
    }
}

impl FromSpecImpl<repo::Error> for WorktreeRemoveError {
    open spec fn obeys_from_spec() -> bool {
        true
    }

    open spec fn from_spec(value: repo::Error) -> Self {
        Self::RepoError(value)
    }
}

/// Why a repository was not converted to a worktree setup.
#[derive(Debug)]
pub enum WorktreeConversionError {
    RepoError(repo::Error),
    Changes(RepoChanges),
    Ignored,
    RenameError(String),
    Path(path::Error),
    OpenDirectoryError(String),
    RemoveError { path: String, error: String },
    ReadDirectoryError(String),
}

impl From<repo::Error> for WorktreeConversionError {
    fn from(value: repo::Error) -> Self {
        Self::RepoError(value)
    }
}

impl FromSpecImpl<repo::Error> for WorktreeConversionError {
    open spec fn obeys_from_spec() -> bool {
        true
    }

    open spec fn from_spec(value: repo::Error) -> Self {
        Self::RepoError(value)
    }
}

/// Why cleaning up worktrees stopped.
#[derive(Debug)]
pub enum CleanupWorktreeError {
    RepoError(Error),
    RemoveError(WorktreeRemoveError),
    DefaultBranch(repo::Error),
    BranchName(repo::Error),
    BranchNotFound { branch_name: BranchName },
}

impl From<Error> for CleanupWorktreeError {
    fn from(value: Error) -> Self {
        Self::RepoError(value)
    }
}

impl FromSpecImpl<Error> for CleanupWorktreeError {
    open spec fn obeys_from_spec() -> bool {
        true
    }

    open spec fn from_spec(value: Error) -> Self {
        Self::RepoError(value)
    }
}

impl From<WorktreeRemoveError> for CleanupWorktreeError {
    fn from(value: WorktreeRemoveError) -> Self {
        Self::RemoveError(value)
    }
}

impl FromSpecImpl<WorktreeRemoveError> for CleanupWorktreeError {
    open spec fn obeys_from_spec() -> bool {
        true
    }

    open spec fn from_spec(value: WorktreeRemoveError) -> Self {
        Self::RemoveError(value)
    }
}

/// A worktree that cleaning up left in place, and why.
pub struct CleanupWorktreeWarning {
    pub worktree_name: WorktreeName,
    pub reason: CleanupWorktreeWarningReason,
}

/// Why cleaning up left a worktree in place.
pub enum CleanupWorktreeWarningReason {
    UncommittedChanges(RepoChanges),
    NotMerged { branch_name: BranchName },
    NoRemoteTrackingBranch { branch_name: BranchName },
    NoDirectory,
}

} // verus!
