//! The decisions of the `grm` command line that do not touch a repository:
//! reading the tracking request, refusing contradictory options, and the
//! exit code of a run.

pub mod cmd;

use vstd::prelude::*;

use crate::repo::{RemoteName, TrackingSelection, WorktreeConversionError, WorktreeRemoveError};
use crate::text::{split_once, split_once_spec, str_eq};
use crate::{config, BranchName};

verus! {

broadcast use crate::repo::remote::RemoteName::lemma_spec_new_view;

/// How a run of `grm` ends.
#[derive(Debug, Clone, Copy, PartialEq, Eq, Structural)]
pub enum MainExitCode {
    Success,
    Failure,
    Warnings,
    Refusal,
    Cli,
}

impl MainExitCode {
    /// The process exit code: 0 for success, 1 for failure, 2 when there
    /// were warnings, 3 when the tool refused to act, 4 for a command line
    /// that makes no sense.
    pub fn code(self) -> (r: u8)
        ensures
            self == MainExitCode::Success ==> r == 0,
            self == MainExitCode::Failure ==> r == 1,
            self == MainExitCode::Warnings ==> r == 2,
            self == MainExitCode::Refusal ==> r == 3,
            self == MainExitCode::Cli ==> r == 4,
    {
        match self {
            MainExitCode::Success => 0,
            MainExitCode::Failure => 1,
            MainExitCode::Warnings => 2,
            MainExitCode::Refusal => 3,
            MainExitCode::Cli => 4,
        }
    }

    /// `Warnings` when something was warned about, `Success` otherwise.
    pub fn from_warnings(warned: bool) -> (r: Self)
        ensures
            warned ==> r == MainExitCode::Warnings,
            !warned ==> r == MainExitCode::Success,
    {
        if warned {
            MainExitCode::Warnings
        } else {
            MainExitCode::Success
        }
    }
}

/// The kinds of failure of a run that have an exit code of their own.
#[derive(Debug, Clone, Copy, PartialEq, Eq, Structural)]
pub enum FailureKind {
    /// A repository with changes was not converted.
    WorktreeConvertRefuseChanges,
    /// A repository with ignored files was not converted.
    WorktreeConvertRefuseIgnored,
    /// A worktree was not removed because it holds work.
    WorktreeRemovalRefuse,
    /// `--rebase` was given without `--pull`.
    CmdRebaseWithoutPull,
    /// Any other failure.
    Other,
}

/// The exit code of a failed run: refusals give `Refusal`, a senseless
/// command line gives `Cli`, everything else `Failure`.
pub fn failure_exit_code(kind: FailureKind) -> (r: MainExitCode)
    ensures
        kind == FailureKind::WorktreeConvertRefuseChanges || kind == FailureKind::WorktreeConvertRefuseIgnored
            || kind == FailureKind::WorktreeRemovalRefuse ==> r == MainExitCode::Refusal,
        kind == FailureKind::CmdRebaseWithoutPull ==> r == MainExitCode::Cli,
        kind == FailureKind::Other ==> r == MainExitCode::Failure,
{
    match kind {
        FailureKind::WorktreeConvertRefuseChanges | FailureKind::WorktreeConvertRefuseIgnored
        | FailureKind::WorktreeRemovalRefuse => MainExitCode::Refusal,
        FailureKind::CmdRebaseWithoutPull => MainExitCode::Cli,
        FailureKind::Other => MainExitCode::Failure,
    }
}

/// A worktree removal that failed because the worktree holds work, which
/// is a refusal rather than an error.
pub fn removal_refused(e: &WorktreeRemoveError) -> (r: bool)
    ensures
        r == (e is Changes || e is NotInSyncWithRemote || e is NotMerged || e is NoRemoteTrackingBranch),
{
    match e {
        WorktreeRemoveError::Changes(_) | WorktreeRemoveError::NotInSyncWithRemote { .. }
        | WorktreeRemoveError::NotMerged { .. } | WorktreeRemoveError::NoRemoteTrackingBranch { .. } => true,
        _ => false,
    }
}

/// The kind of a failed conversion to a worktree setup.
pub fn conversion_failure_kind(e: &WorktreeConversionError) -> (r: FailureKind)
    ensures
        e is Changes ==> r == FailureKind::WorktreeConvertRefuseChanges,
        e is Ignored ==> r == FailureKind::WorktreeConvertRefuseIgnored,
        !(e is Changes || e is Ignored) ==> r == FailureKind::Other,
{
    match e {
        WorktreeConversionError::Changes(_) => FailureKind::WorktreeConvertRefuseChanges,
        WorktreeConversionError::Ignored => FailureKind::WorktreeConvertRefuseIgnored,
        _ => FailureKind::Other,
    }
}

/// A command line that the tool refuses before it does anything.
#[derive(Debug, Clone, Copy, PartialEq, Eq, Structural)]
pub enum CliError {
    /// `--track` and `--no-track` together.
    TrackAndNoTrackInCli,
    /// A tracking branch without a slash.
    NoSlashInTrackingBranch,
    /// A tracking branch with nothing before or after its slash.
    TrackingBranchWrongFormat,
    /// `--rebase` without `--pull`.
    CmdRebaseWithoutPull,
}

/// The remote and branch that a `--track` value `<remote>/<branch>` names:
/// split at its first slash, both parts non-empty.
pub fn parse_tracking_branch(track: &str) -> (r: Result<(RemoteName, BranchName), CliError>)
    ensures
        match split_once_spec(track@, '/') {
            None => r == Err::<(RemoteName, BranchName), CliError>(CliError::NoSlashInTrackingBranch),
            Some((remote, branch)) => if remote.len() == 0 || branch.len() == 0 {
                r == Err::<(RemoteName, BranchName), CliError>(CliError::TrackingBranchWrongFormat)
            } else {
                r matches Ok((rn, bn)) && rn@ == remote && bn@ == branch
            },
        },
{
    match split_once(track, '/') {
        None => Err(CliError::NoSlashInTrackingBranch),
        Some((remote, branch)) => {
            if remote.unicode_len() == 0 || branch.unicode_len() == 0 {
                Err(CliError::TrackingBranchWrongFormat)
            } else {
                Ok((RemoteName::new(remote), BranchName::new(branch)))
            }
        },
    }
}

/// The tracking request of `grm worktree add`: `--track` and `--no-track`
/// together are refused; `--no-track` disables tracking; `--track` names
/// the branch to track; without either, tracking follows the
/// configuration.
pub fn tracking_selection_from_cli(track: Option<&str>, no_track: bool) -> (r: Result<TrackingSelection, CliError>)
    ensures
        track is Some && no_track ==> r == Err::<TrackingSelection, CliError>(CliError::TrackAndNoTrackInCli),
        track is None && no_track ==> r matches Ok(TrackingSelection::Disabled),
        track is None && !no_track ==> r matches Ok(TrackingSelection::Automatic),
        !no_track ==> match track {
            Some(t) => match split_once_spec(t@, '/') {
                None => r == Err::<TrackingSelection, CliError>(CliError::NoSlashInTrackingBranch),
                Some((remote, branch)) => if remote.len() == 0 || branch.len() == 0 {
                    r == Err::<TrackingSelection, CliError>(CliError::TrackingBranchWrongFormat)
                } else {
                    r matches Ok(TrackingSelection::Explicit { remote_name, remote_branch_name })
                        && remote_name@ == remote && remote_branch_name@ == branch
                },
            },
            None => true,
        },
{
    match track {
        Some(t) => {
            if no_track {
                return Err(CliError::TrackAndNoTrackInCli);
            }
            let (remote_name, remote_branch_name) = parse_tracking_branch(t)?;
            Ok(TrackingSelection::Explicit { remote_name, remote_branch_name })
        },
        None => {
            if no_track {
                Ok(TrackingSelection::Disabled)
            } else {
                Ok(TrackingSelection::Automatic)
            }
        },
    }
}

/// `--rebase` only makes sense with `--pull`.
pub fn check_rebase_args(pull: bool, rebase: bool) -> (r: Result<(), CliError>)
    ensures
        rebase && !pull ==> r == Err::<(), CliError>(CliError::CmdRebaseWithoutPull),
        !(rebase && !pull) ==> r is Ok,
{
    if rebase && !pull {
        Err(CliError::CmdRebaseWithoutPull)
    } else {
        Ok(())
    }
}

/// The value of a `true`/`false` option.
pub fn flag_value(value: &str) -> (r: bool)
    ensures
        r == (value@ == "true"@),
{
    str_eq(value, "true")
}

/// Every tree lists repositories, and none of them holds any: nothing was
/// found.
pub open spec fn spec_no_repos_found(trees: Seq<config::Tree>) -> bool {
    forall|i: int| 0 <= i < trees.len() ==> ((#[trigger] trees[i]).repos matches Some(rs) && rs.len() == 0)
}

/// Whether a search found no repositories.
pub fn no_repos_found(trees: &Vec<config::Tree>) -> (r: bool)
    ensures
        r == spec_no_repos_found(trees@),
{
    let mut i: usize = 0;
    while i < trees.len()
        invariant
            i <= trees.len(),
            forall|j: int| 0 <= j < i ==> ((#[trigger] trees@[j]).repos matches Some(rs) && rs.len() == 0),
        decreases trees.len() - i,
    {
        match &trees[i].repos {
            Some(rs) => {
                if rs.len() != 0 {
                    return false;
                }
            },
            None => {
                return false;
            },
        }
        i = i + 1;
    }
    true
}

/// A tracking branch that is accepted names a remote without a slash, and
/// joining remote and branch with a slash gives the value back.
pub proof fn law_tracking_branch_round_trip(track: Seq<char>)
    ensures
        split_once_spec(track, '/') matches Some((remote, branch)) ==> remote + seq!['/'] + branch
            == track && !remote.contains('/'),
{
    crate::text::lemma_first_index_of_spec(track, '/');
    if let Some(i) = crate::text::first_index_of(track, '/') {
        let remote = track.subrange(0, i);
        let branch = track.subrange(i + 1, track.len() as int);
        assert(remote + seq!['/'] + branch =~= track);
        if remote.contains('/') {
            let k = choose|k: int| 0 <= k < remote.len() && remote[k] == '/';
            assert(track[k] == '/');
        }
    }
}

} // verus!
