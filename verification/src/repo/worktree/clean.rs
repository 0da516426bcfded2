//! The decisions taken when worktrees are removed and cleaned up: whether
//! a worktree may go, which directories are cleared after it, which
//! worktrees a clean-up considers, and which directories of a worktree
//! setup belong to no worktree.

use vstd::prelude::*;

use super::{CleanupWorktreeError, CleanupWorktreeWarning, CleanupWorktreeWarningReason, Worktree,
    WorktreeName, WorktreeRemoveError, WorktreeRootConfig, GIT_MAIN_WORKTREE_DIRECTORY};
use crate::config::WORKTREE_CONFIG_FILE_NAME;
use crate::path::{path_join, path_parent, spec_path_join, spec_path_parent};
use crate::repo::{self, RepoChanges, WorktreeRemoveFailureReason};
use crate::text::{str_concat3, str_eq};
use crate::BranchName;

verus! {

/// The branch checked out in a worktree must carry the worktree's name.
pub fn check_worktree_branch(worktree_name: &WorktreeName, branch_name: BranchName) -> (r: Result<BranchName, WorktreeRemoveError>)
    ensures
        branch_name@ == worktree_name@ ==> (r matches Ok(b) && b@ == branch_name@),
        branch_name@ != worktree_name@ ==> (r matches Err(WorktreeRemoveError::BranchNameMismatch { worktree_name: w, branch_name: b })
            && w@ == worktree_name@ && b@ == branch_name@),
{
    if str_eq(branch_name.as_str(), worktree_name.as_str()) {
        Ok(branch_name)
    } else {
        Err(WorktreeRemoveError::BranchNameMismatch { worktree_name: worktree_name.clone(), branch_name })
    }
}

/// Some branch counted is not ahead of the other branch.
pub open spec fn some_merged(ahead: Seq<Option<usize>>) -> bool {
    exists|i: int| 0 <= i < ahead.len() && ahead[i] == Some(0usize)
}

/// Some persistent branch was not found.
pub open spec fn some_missing(ahead: Seq<Option<usize>>) -> bool {
    exists|i: int| 0 <= i < ahead.len() && (#[trigger] ahead[i]) is None
}

/// Whether a worktree must stay, and why.
///
/// Without `force`: a worktree with changes stays; one whose branch is
/// merged neither into the default branch nor into a persistent branch
/// stays; one whose branch is not in line with its upstream stays; and,
/// where no persistent branches are configured, one whose branch has no
/// upstream stays, as its commits could not have been pushed anywhere. A
/// configured persistent branch that is missing is an error.
/// `ahead_of_default` counts the commits the branch has that the default
/// branch lacks; `persistent_ahead` holds, for each configured persistent
/// branch, the same count, or `None` where the branch was not found;
/// `upstream` holds the counts ahead and behind its upstream, if it has
/// one.
pub open spec fn spec_removal_refusal(
    force: bool,
    changes: Option<RepoChanges>,
    ahead_of_default: usize,
    persistent_ahead: Option<Seq<Option<usize>>>,
    upstream: Option<(usize, usize)>,
) -> Option<int> {
    if force {
        None
    } else if changes is Some {
        Some(0)
    } else if persistent_ahead matches Some(p) && some_missing(p) {
        Some(1)
    } else if !(ahead_of_default == 0 || (persistent_ahead matches Some(p) && some_merged(p))) {
        Some(2)
    } else if upstream matches Some((a, b)) && (a != 0 || b != 0) {
        Some(3)
    } else if persistent_ahead is None && upstream is None {
        Some(4)
    } else {
        None
    }
}

fn merged_or_missing(ahead: &Vec<Option<usize>>) -> (r: (bool, bool))
    ensures
        r.0 == some_merged(ahead@),
        r.1 == some_missing(ahead@),
{
    let mut merged = false;
    let mut missing = false;
    let mut i: usize = 0;
    while i < ahead.len()
        invariant
            i <= ahead.len(),
            merged == exists|j: int| 0 <= j < i && ahead@[j] == Some(0usize),
            missing == exists|j: int| 0 <= j < i && (#[trigger] ahead@[j]) is None,
        decreases ahead.len() - i,
    {
        match ahead[i] {
            Some(n) => {
                if n == 0 {
                    merged = true;
                }
            },
            None => {
                missing = true;
            },
        }
        i = i + 1;
    }
    (merged, missing)
}

/// Whether the worktree of `branch_name` may be removed; see
/// `spec_removal_refusal`. The refusals are, in order, `Changes`,
/// `BranchNotFound`, `NotMerged`, `NotInSyncWithRemote` and
/// `NoRemoteTrackingBranch`.
pub fn check_removal(
    force: bool,
    branch_name: &BranchName,
    changes: Option<RepoChanges>,
    ahead_of_default: usize,
    persistent_ahead: Option<Vec<Option<usize>>>,
    upstream: Option<(usize, usize)>,
) -> (r: Result<(), WorktreeRemoveError>)
    ensures
        ({
            let p = match persistent_ahead {
                Some(v) => Some(v@),
                None => None,
            };
            match spec_removal_refusal(force, changes, ahead_of_default, p, upstream) {
                None => r is Ok,
                Some(k) => if k == 0 {
                    r matches Err(WorktreeRemoveError::Changes(c)) && changes == Some(c)
                } else if k == 1 {
                    r matches Err(WorktreeRemoveError::BranchNotFound(b)) && b@ == branch_name@
                } else if k == 2 {
                    r matches Err(WorktreeRemoveError::NotMerged { branch_name: b }) && b@ == branch_name@
                } else if k == 3 {
                    r matches Err(WorktreeRemoveError::NotInSyncWithRemote { branch_name: b }) && b@ == branch_name@
                } else {
                    r matches Err(WorktreeRemoveError::NoRemoteTrackingBranch { branch_name: b }) && b@ == branch_name@
                },
            }
        }),
{
    if force {
        return Ok(());
    }
    if let Some(c) = changes {
        return Err(WorktreeRemoveError::Changes(c));
    }
    let (merged_persistent, missing) = match &persistent_ahead {
        Some(v) => {
            let (m, x) = merged_or_missing(v);
            (Some(m), x)
        },
        None => (None, false),
    };
    if missing {
        return Err(WorktreeRemoveError::BranchNotFound(branch_name.clone()));
    }
    let merged = ahead_of_default == 0 || merged_persistent == Some(true);
    if !merged {
        return Err(WorktreeRemoveError::NotMerged { branch_name: branch_name.clone() });
    }
    match upstream {
        Some((ahead, behind)) => {
            if ahead != 0 || behind != 0 {
                return Err(WorktreeRemoveError::NotInSyncWithRemote { branch_name: branch_name.clone() });
            }
        },
        None => {
            if persistent_ahead.is_none() {
                return Err(WorktreeRemoveError::NoRemoteTrackingBranch { branch_name: branch_name.clone() });
            }
        },
    }
    Ok(())
}

/// The message of a worktree whose branch has no upstream.
pub open spec fn no_upstream_message(branch_name: Seq<char>) -> Seq<char> {
    "No remote tracking branch for branch "@ + branch_name + " found"@
}

/// The message of a worktree whose branch has no upstream.
pub fn no_upstream_text(branch_name: &str) -> (r: String)
    ensures
        r@ == no_upstream_message(branch_name@),
{
    str_concat3("No remote tracking branch for branch ", branch_name, " found")
}

/// Whether a repository handle may remove the worktree `worktree_name`,
/// and why not: `None` where it may, or the kind of refusal with its
/// message. Kind 0 is `Changes`, kind 1 is `NotMerged`, kind 2 is a
/// configured persistent branch that was not found.
///
/// Without `force`: a worktree with changes stays. Where persistent
/// branches are configured, a missing one is an error, and the branch
/// must be merged into one of them (not ahead of it). Where none are
/// configured, the branch must have an upstream, and be neither ahead of
/// it nor behind it.
pub open spec fn spec_repo_removal(
    force: bool,
    worktree_name: Seq<char>,
    has_changes: bool,
    persistent_ahead: Option<Seq<Option<usize>>>,
    upstream: Option<(usize, usize)>,
) -> Option<(int, Seq<char>)> {
    if force {
        None
    } else if has_changes {
        Some((0, "Changes found in worktree"@))
    } else {
        match persistent_ahead {
            Some(p) => if some_missing(p) {
                Some((2, Seq::empty()))
            } else if !some_merged(p) {
                Some((1, "Branch "@ + worktree_name + " is not merged into any persistent branches"@))
            } else {
                None
            },
            None => match upstream {
                None => Some((0, no_upstream_message(worktree_name))),
                Some((ahead, behind)) => if ahead != 0 || behind != 0 {
                    Some((0, "Branch "@ + worktree_name + " is not in line with remote branch"@))
                } else {
                    None
                },
            },
        }
    }
}

/// Whether a repository handle may remove the worktree `worktree_name`;
/// see `spec_repo_removal`. `persistent_ahead` holds, for each configured
/// persistent branch, the commits the worktree's branch has that it lacks,
/// or `None` where it was not found; `upstream` holds the counts ahead and
/// behind the branch's upstream, if it has one.
pub fn check_repo_removal(
    force: bool,
    worktree_name: &WorktreeName,
    has_changes: bool,
    persistent_ahead: Option<Vec<Option<usize>>>,
    upstream: Option<(usize, usize)>,
) -> (r: Result<(), repo::Error>)
    ensures
        ({
            let p = match persistent_ahead {
                Some(v) => Some(v@),
                None => None,
            };
            match spec_repo_removal(force, worktree_name@, has_changes, p, upstream) {
                None => r is Ok,
                Some((k, m)) => if k == 0 {
                    r matches Err(repo::Error::WorktreeRemovalFailure(WorktreeRemoveFailureReason::Changes(s)))
                        && s@ == m
                } else if k == 1 {
                    r matches Err(repo::Error::WorktreeRemovalFailure(WorktreeRemoveFailureReason::NotMerged(s)))
                        && s@ == m
                } else {
                    r matches Err(repo::Error::NotFound)
                },
            }
        }),
{
    if force {
        return Ok(());
    }
    if has_changes {
        return Err(repo::Error::WorktreeRemovalFailure(
            WorktreeRemoveFailureReason::Changes("Changes found in worktree".to_owned()),
        ));
    }
    match &persistent_ahead {
        Some(v) => {
            let (merged, missing) = merged_or_missing(v);
            if missing {
                return Err(repo::Error::NotFound);
            }
            if !merged {
                return Err(repo::Error::WorktreeRemovalFailure(WorktreeRemoveFailureReason::NotMerged(
                    str_concat3("Branch ", worktree_name.as_str(), " is not merged into any persistent branches"),
                )));
            }
            Ok(())
        },
        None => match upstream {
            None => Err(repo::Error::WorktreeRemovalFailure(
                WorktreeRemoveFailureReason::Changes(no_upstream_text(worktree_name.as_str())),
            )),
            Some((ahead, behind)) => {
                if ahead != 0 || behind != 0 {
                    Err(repo::Error::WorktreeRemovalFailure(WorktreeRemoveFailureReason::Changes(
                        str_concat3("Branch ", worktree_name.as_str(), " is not in line with remote branch"),
                    )))
                } else {
                    Ok(())
                }
            },
        },
    }
}

/// `path` and its ancestors, from `path` itself up, as
/// `std::path::Path::ancestors` yields them.
pub open spec fn spec_ancestors(path: Seq<char>) -> Seq<Seq<char>>
    decreases path.len(),
{
    match spec_path_parent(path) {
        Some(parent) => if parent.len() < path.len() {
            seq![path] + spec_ancestors(parent)
        } else {
            seq![path]
        },
        None => seq![path],
    }
}

/// The directories that may be left empty by removing the worktree at
/// `worktree_dir` below `base_dir`, innermost first: each ancestor of the
/// worktree's parent, below `base_dir`.
pub open spec fn spec_dirs_to_clear(base_dir: Seq<char>, worktree_dir: Seq<char>) -> Seq<Seq<char>> {
    match spec_path_parent(worktree_dir) {
        Some(parent) => spec_ancestors(parent).map_values(|a: Seq<char>| spec_path_join(base_dir, a)),
        None => Seq::empty(),
    }
}

/// The directories that may be left empty by removing a worktree,
/// innermost first; each is removed if it is empty, and the walk stops at
/// the first that is not.
pub fn dirs_to_clear(base_dir: &str, worktree_dir: &str) -> (r: Vec<String>)
    ensures
        r@.map_values(|s: String| s@) == spec_dirs_to_clear(base_dir@, worktree_dir@),
{
    let mut r: Vec<String> = Vec::new();
    match path_parent(worktree_dir) {
        None => {
            assert(r@.map_values(|s: String| s@) =~= Seq::<Seq<char>>::empty());
            r
        },
        Some(parent) => {
            let ghost target = spec_dirs_to_clear(base_dir@, worktree_dir@);
            let mut current = parent;
            let mut more = true;
            assert(r@.map_values(|s: String| s@) + spec_ancestors(current@).map_values(
                |a: Seq<char>| spec_path_join(base_dir@, a),
            ) =~= target);
            while more
                invariant
                    more ==> r@.map_values(|s: String| s@) + spec_ancestors(current@).map_values(
                        |a: Seq<char>| spec_path_join(base_dir@, a),
                    ) == target,
                    !more ==> r@.map_values(|s: String| s@) == target,
                decreases current@.len() * 2 + if more { 1int } else { 0int },
            {
                let ghost before = r@.map_values(|s: String| s@);
                let ghost rest = spec_ancestors(current@);
                let joined = path_join(base_dir, current.as_str());
                r.push(joined);
                assert(r@.map_values(|s: String| s@) =~= before.push(spec_path_join(base_dir@, current@)));
                match path_parent(current.as_str()) {
                    Some(q) => {
                        assert(rest == seq![current@] + spec_ancestors(q@));
                        assert(rest.map_values(|a: Seq<char>| spec_path_join(base_dir@, a)) =~= seq![
                            spec_path_join(base_dir@, current@),
                        ] + spec_ancestors(q@).map_values(|a: Seq<char>| spec_path_join(base_dir@, a)));
                        assert(r@.map_values(|s: String| s@) + spec_ancestors(q@).map_values(
                            |a: Seq<char>| spec_path_join(base_dir@, a),
                        ) =~= before + rest.map_values(|a: Seq<char>| spec_path_join(base_dir@, a)));
                        current = q;
                    },
                    None => {
                        assert(rest == seq![current@]);
                        assert(rest.map_values(|a: Seq<char>| spec_path_join(base_dir@, a)) =~= seq![
                            spec_path_join(base_dir@, current@),
                        ]);
                        assert(r@.map_values(|s: String| s@) =~= before + rest.map_values(
                            |a: Seq<char>| spec_path_join(base_dir@, a),
                        ));
                        more = false;
                    },
                }
            }
            r
        },
    }
}

/// The branch a clean-up keeps as the default: the first persistent
/// branch, when the configuration lists any; `None` when the repository's
/// default branch is to be found instead.
pub fn configured_default_branch(config: Option<&WorktreeRootConfig>) -> (r: Option<BranchName>)
    ensures
        match config {
            Some(c) => match c.persistent_branches {
                Some(bs) => if bs.len() > 0 {
                    r matches Some(b) && b@ == bs[0]@
                } else {
                    r is None
                },
                None => r is None,
            },
            None => r is None,
        },
{
    match config {
        Some(c) => match &c.persistent_branches {
            Some(bs) => {
                if bs.len() > 0 {
                    Some(bs[0].clone())
                } else {
                    None
                }
            },
            None => None,
        },
        None => None,
    }
}

/// Some branch of `branches` has the name `name`.
pub open spec fn names_branch(branches: Seq<BranchName>, name: Seq<char>) -> bool {
    exists|i: int| 0 <= i < branches.len() && (#[trigger] branches[i])@ == name
}

/// A clean-up considers the worktree `name`: it is not the default branch
/// and not a persistent branch.
pub open spec fn is_cleanup_candidate(name: Seq<char>, default_branch: Seq<char>, config: Option<WorktreeRootConfig>) -> bool {
    &&& name != default_branch
    &&& match config {
        Some(c) => match c.persistent_branches {
            Some(bs) => !names_branch(bs@, name),
            None => true,
        },
        None => true,
    }
}

/// The worktrees of `worktrees` that a clean-up considers, in order.
pub open spec fn cleanup_candidate_names(names: Seq<Seq<char>>, default_branch: Seq<char>, config: Option<WorktreeRootConfig>) -> Seq<Seq<char>>
    decreases names.len(),
{
    if names.len() == 0 {
        Seq::empty()
    } else {
        let before = cleanup_candidate_names(names.drop_last(), default_branch, config);
        if is_cleanup_candidate(names.last(), default_branch, config) {
            before.push(names.last())
        } else {
            before
        }
    }
}

/// The names of a list of worktrees.
pub open spec fn worktree_names(ws: Seq<Worktree>) -> Seq<Seq<char>> {
    ws.map_values(|w: Worktree| w.spec_name()@)
}

fn is_persistent(branches: &Vec<BranchName>, name: &str) -> (r: bool)
    ensures
        r == names_branch(branches@, name@),
{
    let mut i: usize = 0;
    while i < branches.len()
        invariant
            i <= branches.len(),
            forall|j: int| 0 <= j < i ==> (#[trigger] branches@[j])@ != name@,
        decreases branches.len() - i,
    {
        if str_eq(branches[i].as_str(), name) {
            assert(branches@[i as int]@ == name@);
            return true;
        }
        i = i + 1;
    }
    false
}

/// The worktrees that a clean-up considers, in order: all but the one of
/// the default branch and those of persistent branches.
pub fn cleanup_candidates(worktrees: Vec<Worktree>, default_branch: &BranchName, config: Option<&WorktreeRootConfig>) -> (r: Vec<Worktree>)
    ensures
        worktree_names(r@) == cleanup_candidate_names(
            worktree_names(worktrees@),
            default_branch@,
            match config {
                Some(c) => Some(*c),
                None => None,
            },
        ),
{
    let ghost cfg = match config {
        Some(c) => Some(*c),
        None => None::<WorktreeRootConfig>,
    };
    let ghost names = worktree_names(worktrees@);
    let mut r: Vec<Worktree> = Vec::new();
    let mut rest = worktrees;
    let ghost all = rest@;
    let n = rest.len();
    let mut k: usize = 0;
    while rest.len() > 0
        invariant
            n == all.len(),
            k + rest.len() == n,
            names == worktree_names(all),
            rest@ == all.subrange(k as int, n as int),
            cfg == match config {
                Some(c) => Some(*c),
                None => None::<WorktreeRootConfig>,
            },
            worktree_names(r@) == cleanup_candidate_names(names.subrange(0, k as int), default_branch@, cfg),
        decreases rest.len(),
    {
        let w = rest.remove(0);
        proof {
            assert(w == all[k as int]);
            assert(names.subrange(0, k + 1).drop_last() =~= names.subrange(0, k as int));
            assert(names.subrange(0, k + 1).last() == w.spec_name()@);
        }
        let name = w.name().as_str();
        let keep = if str_eq(name, default_branch.as_str()) {
            false
        } else {
            match config {
                Some(c) => match &c.persistent_branches {
                    Some(bs) => !is_persistent(bs, name),
                    None => true,
                },
                None => true,
            }
        };
        if keep {
            let ghost before = r@;
            r.push(w);
            assert(worktree_names(r@) =~= worktree_names(before).push(all[k as int].spec_name()@));
        }
        k = k + 1;
        proof {
            assert(rest@ =~= all.subrange(k as int, n as int));
        }
    }
    assert(names.subrange(0, n as int) =~= names);
    r
}

/// What becomes of one worktree in a clean-up: `removal` is the result of
/// removing it, or `None` when it has no directory. A removed worktree
/// gives nothing; one with changes, not merged or without an upstream, and
/// one without a directory, give a warning; any other failure stops the
/// clean-up.
pub fn cleanup_outcome(worktree_name: WorktreeName, removal: Option<Result<(), WorktreeRemoveError>>) -> (r: Result<Option<CleanupWorktreeWarning>, CleanupWorktreeError>)
    ensures
        match removal {
            None => r matches Ok(Some(w)) && w.worktree_name@ == worktree_name@
                && w.reason is NoDirectory,
            Some(Ok(())) => r matches Ok(None),
            Some(Err(WorktreeRemoveError::Changes(c))) => r matches Ok(Some(w))
                && w.worktree_name@ == worktree_name@
                && w.reason == CleanupWorktreeWarningReason::UncommittedChanges(c),
            Some(Err(WorktreeRemoveError::NotMerged { branch_name })) => r matches Ok(Some(w))
                && w.worktree_name@ == worktree_name@
                && w.reason == CleanupWorktreeWarningReason::NotMerged { branch_name },
            Some(Err(WorktreeRemoveError::NoRemoteTrackingBranch { branch_name })) => r matches Ok(Some(w))
                && w.worktree_name@ == worktree_name@
                && w.reason == CleanupWorktreeWarningReason::NoRemoteTrackingBranch { branch_name },
            Some(Err(e)) => r == Err::<Option<CleanupWorktreeWarning>, CleanupWorktreeError>(
                CleanupWorktreeError::RemoveError(e),
            ),
        },
{
    match removal {
        None => Ok(Some(CleanupWorktreeWarning { worktree_name, reason: CleanupWorktreeWarningReason::NoDirectory })),
        Some(Ok(())) => Ok(None),
        Some(Err(WorktreeRemoveError::Changes(c))) => Ok(Some(
            CleanupWorktreeWarning { worktree_name, reason: CleanupWorktreeWarningReason::UncommittedChanges(c) },
        )),
        Some(Err(WorktreeRemoveError::NotMerged { branch_name })) => Ok(Some(
            CleanupWorktreeWarning { worktree_name, reason: CleanupWorktreeWarningReason::NotMerged { branch_name } },
        )),
        Some(Err(WorktreeRemoveError::NoRemoteTrackingBranch { branch_name })) => Ok(Some(
            CleanupWorktreeWarning {
                worktree_name,
                reason: CleanupWorktreeWarningReason::NoRemoteTrackingBranch { branch_name },
            },
        )),
        Some(Err(e)) => Err(CleanupWorktreeError::RemoveError(e)),
    }
}

/// A directory of a worktree setup belongs to no worktree: it is not the
/// main worktree directory, not the configuration file, not the default
/// branch's worktree, and no worktree has its name.
pub open spec fn is_unmanaged_dir(entry: Seq<char>, worktrees: Seq<Seq<char>>, default_branch: Option<Seq<char>>) -> bool {
    &&& entry != GIT_MAIN_WORKTREE_DIRECTORY@
    &&& entry != WORKTREE_CONFIG_FILE_NAME@
    &&& default_branch != Some(entry)
    &&& !worktrees.contains(entry)
}

/// The entries that belong to no worktree, in order.
pub open spec fn unmanaged_dirs(entries: Seq<Seq<char>>, worktrees: Seq<Seq<char>>, default_branch: Option<Seq<char>>) -> Seq<Seq<char>>
    decreases entries.len(),
{
    if entries.len() == 0 {
        Seq::empty()
    } else {
        let before = unmanaged_dirs(entries.drop_last(), worktrees, default_branch);
        if is_unmanaged_dir(entries.last(), worktrees, default_branch) {
            before.push(entries.last())
        } else {
            before
        }
    }
}

fn has_worktree(worktrees: &Vec<Worktree>, name: &str) -> (r: bool)
    ensures
        r == worktree_names(worktrees@).contains(name@),
{
    let ghost names = worktree_names(worktrees@);
    let mut i: usize = 0;
    while i < worktrees.len()
        invariant
            i <= worktrees.len(),
            names == worktree_names(worktrees@),
            forall|j: int| 0 <= j < i ==> #[trigger] names[j] != name@,
        decreases worktrees.len() - i,
    {
        if str_eq(worktrees[i].name().as_str(), name) {
            assert(names[i as int] == name@);
            return true;
        }
        i = i + 1;
    }
    false
}

/// The entries of a worktree setup's directory that belong to no worktree,
/// in order. `default_branch` is the default branch's name, when it could
/// be found.
pub fn unmanaged_worktree_dirs(entries: Vec<String>, worktrees: &Vec<Worktree>, default_branch: Option<&BranchName>) -> (r: Vec<String>)
    ensures
        r@.map_values(|s: String| s@) == unmanaged_dirs(
            entries@.map_values(|s: String| s@),
            worktree_names(worktrees@),
            match default_branch {
                Some(b) => Some(b@),
                None => None,
            },
        ),
{
    let ghost views = entries@.map_values(|s: String| s@);
    let ghost db = match default_branch {
        Some(b) => Some(b@),
        None => None::<Seq<char>>,
    };
    let mut r: Vec<String> = Vec::new();
    let mut i: usize = 0;
    while i < entries.len()
        invariant
            i <= entries.len(),
            views == entries@.map_values(|s: String| s@),
            db == match default_branch {
                Some(b) => Some(b@),
                None => None::<Seq<char>>,
            },
            r@.map_values(|s: String| s@) == unmanaged_dirs(views.subrange(0, i as int), worktree_names(worktrees@), db),
        decreases entries.len() - i,
    {
        assert(views.subrange(0, i + 1).drop_last() =~= views.subrange(0, i as int));
        assert(views.subrange(0, i + 1).last() == entries[i as int]@);
        let entry = entries[i].as_str();
        let skip = str_eq(entry, GIT_MAIN_WORKTREE_DIRECTORY) || str_eq(entry, WORKTREE_CONFIG_FILE_NAME)
            || match default_branch {
            Some(b) => str_eq(entry, b.as_str()),
            None => false,
        } || has_worktree(worktrees, entry);
        if !skip {
            let ghost before = r@.map_values(|s: String| s@);
            r.push(entries[i].clone());
            assert(r@.map_values(|s: String| s@) =~= before.push(entries[i as int]@));
        }
        i = i + 1;
    }
    assert(views.subrange(0, entries.len() as int) =~= views);
    r
}

/// A forced removal is never refused; without force, a worktree with
/// changes is always refused.
pub proof fn law_force_and_changes(
    changes: Option<RepoChanges>,
    ahead_of_default: usize,
    persistent_ahead: Option<Seq<Option<usize>>>,
    upstream: Option<(usize, usize)>,
)
    ensures
        spec_removal_refusal(true, changes, ahead_of_default, persistent_ahead, upstream) is None,
        changes is Some ==> spec_removal_refusal(false, changes, ahead_of_default, persistent_ahead, upstream)
            == Some(0int),
{
}

/// Without `force`, a worktree whose branch has no upstream, where no
/// persistent branches are configured, is never removed: there is no
/// remote branch its commits could have been pushed to.
pub proof fn law_no_upstream_refused(
    worktree_name: Seq<char>,
    changes: Option<RepoChanges>,
    ahead_of_default: usize,
)
    ensures
        spec_removal_refusal(false, changes, ahead_of_default, None, None) is Some,
        spec_repo_removal(false, worktree_name, changes is Some, None, None) is Some,
        changes is None ==> spec_repo_removal(false, worktree_name, false, None, None)
            == Some((0int, no_upstream_message(worktree_name))),
{
}

/// Without `force`, a worktree is removed only if it has no changes and
/// its branch is merged: it has no commits that the default branch lacks,
/// or none that some configured persistent branch lacks. In particular,
/// where no persistent branches are configured, a branch ahead of the
/// default branch keeps its worktree, as not merged.
pub proof fn law_only_merged_branches_removed(
    changes: Option<RepoChanges>,
    ahead_of_default: usize,
    persistent_ahead: Option<Seq<Option<usize>>>,
    upstream: Option<(usize, usize)>,
)
    ensures
        spec_removal_refusal(false, changes, ahead_of_default, persistent_ahead, upstream) is None ==> {
            &&& changes is None
            &&& (ahead_of_default == 0 || exists|i: int|
                #![trigger persistent_ahead->0[i]]
                persistent_ahead is Some && 0 <= i < persistent_ahead->0.len() && persistent_ahead->0[i]
                    == Some(0usize))
        },
        changes is None && ahead_of_default > 0 && persistent_ahead is None ==> spec_removal_refusal(
            false,
            changes,
            ahead_of_default,
            persistent_ahead,
            upstream,
        ) == Some(2int),
        changes is None && ahead_of_default > 0 && (persistent_ahead matches Some(p) && forall|i: int|
            0 <= i < p.len() ==> (#[trigger] p[i]) is Some && p[i] != Some(0usize)) ==> spec_removal_refusal(
            false,
            changes,
            ahead_of_default,
            persistent_ahead,
            upstream,
        ) == Some(2int),
{
    if let Some(p) = persistent_ahead {
        if some_merged(p) {
            let i = choose|i: int| 0 <= i < p.len() && p[i] == Some(0usize);
            assert(persistent_ahead->0[i] == Some(0usize));
        }
    }
}

/// A clean-up never considers the worktree of the default branch, nor that
/// of a persistent branch.
pub proof fn law_cleanup_spares_default_and_persistent(
    names: Seq<Seq<char>>,
    default_branch: Seq<char>,
    config: Option<WorktreeRootConfig>,
)
    ensures
        forall|i: int|
            0 <= i < cleanup_candidate_names(names, default_branch, config).len() ==> is_cleanup_candidate(
                #[trigger] cleanup_candidate_names(names, default_branch, config)[i],
                default_branch,
                config,
            ),
    decreases names.len(),
{
    if names.len() > 0 {
        law_cleanup_spares_default_and_persistent(names.drop_last(), default_branch, config);
        let before = cleanup_candidate_names(names.drop_last(), default_branch, config);
        let all = cleanup_candidate_names(names, default_branch, config);
        assert forall|i: int| 0 <= i < all.len() implies is_cleanup_candidate(#[trigger] all[i], default_branch, config) by {
            if i < before.len() {
                assert(all[i] == before[i]);
            }
        }
    }
}

/// The main worktree directory, the configuration file, the default
/// branch's directory and the directories of worktrees are never reported
/// as unmanaged.
pub proof fn law_unmanaged_dirs_exclude_managed(
    entries: Seq<Seq<char>>,
    worktrees: Seq<Seq<char>>,
    default_branch: Option<Seq<char>>,
)
    ensures
        forall|i: int|
            0 <= i < unmanaged_dirs(entries, worktrees, default_branch).len() ==> is_unmanaged_dir(
                #[trigger] unmanaged_dirs(entries, worktrees, default_branch)[i],
                worktrees,
                default_branch,
            ),
    decreases entries.len(),
{
    if entries.len() > 0 {
        law_unmanaged_dirs_exclude_managed(entries.drop_last(), worktrees, default_branch);
        let before = unmanaged_dirs(entries.drop_last(), worktrees, default_branch);
        let all = unmanaged_dirs(entries, worktrees, default_branch);
        assert forall|i: int| 0 <= i < all.len() implies is_unmanaged_dir(#[trigger] all[i], worktrees, default_branch) by {
            if i < before.len() {
                assert(all[i] == before[i]);
            }
        }
    }
}

} // verus!
