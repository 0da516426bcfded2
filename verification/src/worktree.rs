//! Adding a worktree to a worktree setup, as the command line asks for it:
//! the name is checked first, and the tracking request is read from the
//! `--track` and `--no-track` options.
//!
//! The name of a worktree is also the name of its directory and of its
//! branch. An existing local branch is never modified, and tracking of an
//! existing branch is only changed when asked to. Remote operations happen
//! only when tracking is set up. The commit that a new branch starts from
//! and the remote branch it tracks are chosen by
//! `repo::worktree::add::select_target` and
//! `repo::worktree::add::select_tracking`.

use vstd::prelude::*;

use crate::repo::worktree::{check_worktree_name, worktree_name_problem};
use crate::repo::{self, RemoteName, TrackingSelection, WorktreeName};
use crate::{config, BranchName};

pub use crate::repo::worktree::{WorktreeValidationError, GIT_MAIN_WORKTREE_DIRECTORY};

verus! {

broadcast use repo::remote::RemoteName::lemma_spec_new_view;

/// A branch name must never start or end with a slash, cannot have two
/// consecutive slashes and cannot hold whitespace.
pub fn validate_worktree_name(name: &str) -> (r: Result<(), WorktreeValidationError>)
    ensures
        match worktree_name_problem(name@) {
            None => r is Ok,
            Some(reason) => r matches Err(e) && e.spec_name() == name@ && e.spec_reason() == reason,
        },
{
    match check_worktree_name(name) {
        None => Ok(()),
        Some(reason) => Err(WorktreeValidationError::new(name.to_owned(), reason)),
    }
}

/// Errors of adding a worktree.
#[derive(Debug)]
pub enum Error {
    Repo(repo::Error),
    Config(config::Error),
    InvalidWorktreeName(WorktreeValidationError),
    RemoteNotFound { name: RemoteName },
    RemoteNotPushable { name: RemoteName },
    Io { message: String },
    NotAWorktreeSetup,
    WorktreeAlreadyExists { name: String },
}

/// What the `--track` and `--no-track` options ask for: `--no-track`
/// disables tracking, even with `--track`; `--track` names the remote
/// branch to track; without either, tracking follows the configuration.
pub fn tracking_selection(track: Option<(RemoteName, BranchName)>, no_track: bool) -> (r: TrackingSelection)
    ensures
        no_track ==> r is Disabled,
        !no_track ==> match track {
            Some((remote, branch)) => r matches TrackingSelection::Explicit { remote_name, remote_branch_name }
                && remote_name@ == remote@ && remote_branch_name@ == branch@,
            None => r is Automatic,
        },
{
    if no_track {
        TrackingSelection::Disabled
    } else {
        match track {
            Some((remote_name, remote_branch_name)) => TrackingSelection::Explicit { remote_name, remote_branch_name },
            None => TrackingSelection::Automatic,
        }
    }
}

/// A checked request to add a worktree.
pub struct AddWorktreeRequest {
    pub directory: String,
    pub name: WorktreeName,
    pub selection: TrackingSelection,
}

/// Starts adding the worktree `name` to the worktree setup in `directory`:
/// an invalid name is refused before anything else happens; otherwise the
/// request to carry out is returned.
pub fn add_worktree(directory: &str, name: &str, track: Option<(RemoteName, BranchName)>, no_track: bool) -> (r: Result<AddWorktreeRequest, Error>)
    ensures
        match worktree_name_problem(name@) {
            Some(reason) => r matches Err(Error::InvalidWorktreeName(e)) && e.spec_name() == name@
                && e.spec_reason() == reason,
            None => r matches Ok(req) && req.directory@ == directory@ && req.name@ == name@
                && (no_track ==> req.selection is Disabled)
                && (!no_track && track is None ==> req.selection is Automatic)
                && (!no_track && track is Some ==> req.selection is Explicit),
        },
{
    match WorktreeName::new(name.to_owned()) {
        Err(e) => Err(Error::InvalidWorktreeName(e)),
        Ok(worktree_name) => Ok(AddWorktreeRequest {
            directory: directory.to_owned(),
            name: worktree_name,
            selection: tracking_selection(track, no_track),
        }),
    }
}

} // verus!
