use grm::repo::worktree::add::{
    check_worktree_absent, plan_upstream, setup_open_error, remote_lookup_names, select_target, select_tracking, upstream_name,
    worktree_layout, CommitId, RemoteHeads, RemoteTrackingBranch, TargetCommit, UpstreamPlan,
};
use grm::repo::worktree::clean::{
    check_removal, check_repo_removal, no_upstream_text, check_worktree_branch, cleanup_candidates, cleanup_outcome,
    configured_default_branch, dirs_to_clear, unmanaged_worktree_dirs,
};
use grm::repo::worktree::{
    worktrees_from_names, CleanupWorktreeError, CleanupWorktreeWarningReason, Error, TrackingConfig,
    TrackingDefault, TrackingSelection, Worktree, WorktreeName, WorktreeRemoveError,
    WorktreeRootConfig, WorktreeSetup, WorktreeValidationErrorReason,
};
use grm::repo::{self, RepoChanges, WorktreeRemoveFailureReason};
use grm::worktree::{add_worktree, validate_worktree_name};
use grm::{BranchName, RemoteName, RemoteUrl};

#[test]
fn mod_invalid_worktree_names() {
    assert!(WorktreeName::new("/leadingslash".to_owned()).is_err());
    assert!(WorktreeName::new("trailingslash/".to_owned()).is_err());
    assert!(WorktreeName::new("//".to_owned()).is_err());
    assert!(WorktreeName::new("test//test".to_owned()).is_err());
    assert!(WorktreeName::new("test test".to_owned()).is_err());
    assert!(WorktreeName::new("test\ttest".to_owned()).is_err());
}

#[test]
fn worktree_invalid_worktree_names() {
    assert!(add_worktree("/tmp/", "/leadingslash", None, false).is_err());
    assert!(add_worktree("/tmp/", "trailingslash/", None, false).is_err());
    assert!(add_worktree("/tmp/", "//", None, false).is_err());
    assert!(add_worktree("/tmp/", "test//test", None, false).is_err());
    assert!(add_worktree("/tmp/", "test test", None, false).is_err());
    assert!(add_worktree("/tmp/", "test\ttest", None, false).is_err());
}

#[test]
fn validation_reasons() {
    let e = WorktreeName::new("a//b".to_owned()).unwrap_err();
    assert_eq!(e.name(), "a//b");
    assert_eq!(e.reason(), WorktreeValidationErrorReason::ConsecutiveSlashes);
    assert_eq!(e.reason().message(), "Cannot contain two consecutive slashes");
    let e = validate_worktree_name("/x").unwrap_err();
    assert_eq!(e.reason(), WorktreeValidationErrorReason::SlashAtStartOrEnd);
    let e = validate_worktree_name("a\u{3000}b").unwrap_err();
    assert_eq!(e.reason(), WorktreeValidationErrorReason::ContainsWhitespace);
    assert!(validate_worktree_name("feature/x").is_ok());
    assert_eq!(WorktreeName::new("feature/x".to_owned()).unwrap().as_str(), "feature/x");
}

#[test]
fn add_request_reads_the_options() {
    let req = add_worktree("/repo", "x", None, true).unwrap();
    assert!(matches!(req.selection, TrackingSelection::Disabled));
    assert_eq!(req.name.as_str(), "x");
    let track = Some((
        RemoteName::new("origin".to_owned()),
        BranchName::new("x".to_owned()),
    ));
    let req = add_worktree("/repo", "x", track, false).unwrap();
    assert!(matches!(req.selection, TrackingSelection::Explicit { .. }));
    let req = add_worktree("/repo", "x", None, false).unwrap();
    assert!(matches!(req.selection, TrackingSelection::Automatic));
    assert!(matches!(
        add_worktree("/repo", "a b", None, false),
        Err(grm::worktree::Error::InvalidWorktreeName(_))
    ));
}

#[test]
fn worktrees_are_named_after_git_listing() {
    let ws = worktrees_from_names(vec!["a".to_owned(), "b/c".to_owned()]).unwrap();
    assert_eq!(ws.len(), 2);
    assert_eq!(ws[1].name().as_str(), "b/c");
    assert!(worktrees_from_names(vec!["a".to_owned(), "b c".to_owned()]).is_err());
    assert!(WorktreeSetup::from_bool(true).is_worktree());
    assert!(!WorktreeSetup::from_bool(false).is_worktree());
}

fn commit(s: &str) -> CommitId {
    CommitId::new(s.to_owned())
}

fn heads(with_prefix: Option<&str>, without_prefix: Option<&str>) -> RemoteHeads {
    RemoteHeads {
        with_prefix: with_prefix.map(commit),
        without_prefix: without_prefix.map(commit),
    }
}

#[test]
fn existing_branch_is_kept() {
    let r = select_target(
        true,
        &TrackingSelection::Automatic,
        None,
        &vec![heads(None, Some("aaa"))],
        None,
        None,
    );
    assert!(matches!(r.target, TargetCommit::LocalBranch));
    assert!(r.warnings.is_empty());
}

#[test]
fn explicit_branch_starts_new_branch() {
    let sel = TrackingSelection::Explicit {
        remote_name: RemoteName::new("origin".to_owned()),
        remote_branch_name: BranchName::new("x".to_owned()),
    };
    let r = select_target(false, &sel, Some(commit("abc")), &vec![heads(None, Some("zzz"))], None, None);
    assert!(matches!(r.target, TargetCommit::Commit(ref c) if c.as_str() == "abc"));
    let r = select_target(false, &sel, None, &vec![heads(None, Some("zzz"))], None, None);
    assert!(matches!(r.target, TargetCommit::DefaultBranch));
}

#[test]
fn single_remote_prefers_the_prefixed_branch() {
    let all = vec![heads(Some("pre"), Some("plain"))];
    let r = select_target(false, &TrackingSelection::Automatic, None, &all, Some("me"), None);
    assert!(matches!(r.target, TargetCommit::Commit(ref c) if c.as_str() == "pre"));
    let r = select_target(false, &TrackingSelection::Automatic, None, &all, None, None);
    assert!(matches!(r.target, TargetCommit::Commit(ref c) if c.as_str() == "plain"));
    let none = vec![heads(None, None)];
    let r = select_target(false, &TrackingSelection::Disabled, None, &none, Some("me"), None);
    assert!(matches!(r.target, TargetCommit::DefaultBranch));
    let r = select_target(false, &TrackingSelection::Automatic, None, &Vec::new(), None, None);
    assert!(matches!(r.target, TargetCommit::DefaultBranch));
}

#[test]
fn several_remotes_must_agree() {
    let agree = vec![heads(None, Some("c1")), heads(None, None), heads(None, Some("c1"))];
    let r = select_target(false, &TrackingSelection::Automatic, None, &agree, None, None);
    assert!(matches!(r.target, TargetCommit::Commit(ref c) if c.as_str() == "c1"));
    assert!(r.warnings.is_empty());

    let deviate = vec![heads(None, Some("c1")), heads(None, Some("c2"))];
    let r = select_target(false, &TrackingSelection::Automatic, None, &deviate, None, None);
    assert!(matches!(r.target, TargetCommit::DefaultBranch));
    assert_eq!(r.warnings.len(), 1);
    assert_eq!(
        r.warnings[0].as_str(),
        "Branch exists on multiple remotes, but they deviate. Selecting default branch instead"
    );

    let r = select_target(
        false,
        &TrackingSelection::Automatic,
        None,
        &deviate,
        None,
        Some(heads(None, Some("c2"))),
    );
    assert!(matches!(r.target, TargetCommit::Commit(ref c) if c.as_str() == "c2"));
    assert_eq!(r.warnings.len(), 1);
}

fn tracking(default: TrackingDefault, prefix: Option<&str>) -> TrackingConfig {
    TrackingConfig {
        default,
        default_remote: RemoteName::new("origin".to_owned()),
        default_remote_prefix: prefix.map(str::to_owned),
    }
}

#[test]
fn tracking_branch_selection() {
    let name = WorktreeName::new("feature".to_owned()).unwrap();
    let remotes = vec![RemoteName::new("upstream".to_owned())];
    let on = tracking(TrackingDefault::Track, Some("me"));
    let off = tracking(TrackingDefault::NoTrack, Some("me"));

    assert!(select_tracking(&name, TrackingSelection::Disabled, &remotes, Some(&on)).is_none());
    assert!(select_tracking(&name, TrackingSelection::Automatic, &remotes, Some(&off)).is_none());
    assert!(select_tracking(&name, TrackingSelection::Automatic, &remotes, None).is_none());

    let t = select_tracking(&name, TrackingSelection::Automatic, &remotes, Some(&on)).unwrap();
    assert_eq!(t.remote_name.as_str(), "upstream");
    assert_eq!(upstream_name(&t).as_str(), "me/feature");

    let two = vec![
        RemoteName::new("upstream".to_owned()),
        RemoteName::new("fork".to_owned()),
    ];
    let t = select_tracking(&name, TrackingSelection::Automatic, &two, Some(&on)).unwrap();
    assert_eq!(t.remote_name.as_str(), "origin");

    let explicit = TrackingSelection::Explicit {
        remote_name: RemoteName::new("fork".to_owned()),
        remote_branch_name: BranchName::new("other".to_owned()),
    };
    let t = select_tracking(&name, explicit, &two, Some(&on)).unwrap();
    assert_eq!(t.remote_name.as_str(), "fork");
    assert!(t.prefix.is_none());
    assert_eq!(upstream_name(&t).as_str(), "other");
}

#[test]
fn lookup_names_for_remotes() {
    let name = WorktreeName::new("feature".to_owned()).unwrap();
    let (prefixed, plain) = remote_lookup_names(&name, Some("me"));
    assert_eq!(prefixed.unwrap().as_str(), "me/feature");
    assert_eq!(plain.as_str(), "feature");
    assert!(remote_lookup_names(&name, None).0.is_none());
}

fn tracking_branch(prefix: Option<&str>) -> RemoteTrackingBranch {
    RemoteTrackingBranch {
        remote_name: RemoteName::new("origin".to_owned()),
        remote_branch_name: BranchName::new("feature".to_owned()),
        prefix: prefix.map(str::to_owned),
    }
}

#[test]
fn upstream_of_an_existing_remote_branch() {
    let local = BranchName::new("feature".to_owned());
    let t = tracking_branch(Some("me"));
    let found = Some((BranchName::new("origin/me/feature".to_owned()), commit("r1")));
    match plan_upstream(&local, &t, found, &commit("l1"), None).unwrap() {
        UpstreamPlan::Track {
            remote_name,
            branch_name,
            warnings,
        } => {
            assert_eq!(remote_name.as_str(), "origin");
            assert_eq!(branch_name.as_str(), "me/feature");
            assert_eq!(warnings.len(), 1);
            assert_eq!(
                warnings[0].as_str(),
                "The local branch \"feature\" and the remote branch \"origin/feature\" differ. Make sure to push/pull afterwards!"
            );
        }
        UpstreamPlan::Push { .. } => panic!("the branch exists"),
    }
    let found = Some((BranchName::new("origin/me/feature".to_owned()), commit("same")));
    match plan_upstream(&local, &t, found, &commit("same"), None).unwrap() {
        UpstreamPlan::Track { warnings, .. } => assert!(warnings.is_empty()),
        UpstreamPlan::Push { .. } => panic!("the branch exists"),
    }
}

#[test]
fn upstream_of_a_missing_remote_branch() {
    let local = BranchName::new("feature".to_owned());
    let t = tracking_branch(Some("me"));
    let url = Some(RemoteUrl::new("ssh://git@example.com/x.git".to_owned()));
    match plan_upstream(&local, &t, None, &commit("l1"), url).unwrap() {
        UpstreamPlan::Push {
            remote_name,
            local_branch_name,
            remote_branch_name,
        } => {
            assert_eq!(remote_name.as_str(), "origin");
            assert_eq!(local_branch_name.as_str(), "feature");
            assert_eq!(remote_branch_name.as_str(), "me/feature");
        }
        UpstreamPlan::Track { .. } => panic!("the branch is missing"),
    }
    assert!(matches!(
        plan_upstream(&local, &t, None, &commit("l1"), None),
        Err(Error::RemoteNotFound { ref name }) if name.as_str() == "origin"
    ));
    let https = Some(RemoteUrl::new("https://example.com/x.git".to_owned()));
    assert!(matches!(
        plan_upstream(&local, &t, None, &commit("l1"), https),
        Err(Error::RemoteNotPushable { .. })
    ));
}

#[test]
fn layout_of_worktrees() {
    let plain = WorktreeName::new("feature".to_owned()).unwrap();
    let l = worktree_layout("/repo", &plain);
    assert_eq!(l.worktree_directory, "/repo/feature");
    assert!(l.parent_directories.is_none());

    let nested = WorktreeName::new("me/feature".to_owned()).unwrap();
    let l = worktree_layout("/repo", &nested);
    assert_eq!(l.worktree_directory, "/repo/me/feature");
    let (data, parent) = l.parent_directories.unwrap();
    assert_eq!(data, "/repo/.git-main-working-tree/worktrees/me");
    assert_eq!(parent, "me");
}

#[test]
fn removal_checks() {
    let b = BranchName::new("feature".to_owned());
    let changes = RepoChanges {
        files_new: 1,
        files_modified: 0,
        files_deleted: 0,
    };
    assert!(check_removal(true, &b, Some(changes), 5, None, Some((1, 1))).is_ok());
    assert!(matches!(
        check_removal(false, &b, Some(changes), 0, None, None),
        Err(WorktreeRemoveError::Changes(_))
    ));
    assert!(matches!(
        check_removal(false, &b, None, 0, Some(vec![Some(0), None]), None),
        Err(WorktreeRemoveError::BranchNotFound(_))
    ));
    assert!(matches!(
        check_removal(false, &b, None, 3, Some(vec![Some(1)]), None),
        Err(WorktreeRemoveError::NotMerged { .. })
    ));
    assert!(check_removal(false, &b, None, 3, Some(vec![Some(1), Some(0)]), None).is_ok());
    assert!(matches!(
        check_removal(false, &b, None, 0, None, Some((0, 2))),
        Err(WorktreeRemoveError::NotInSyncWithRemote { .. })
    ));
    assert!(check_removal(false, &b, None, 0, None, Some((0, 0))).is_ok());

    let name = WorktreeName::new("feature".to_owned()).unwrap();
    assert!(check_worktree_branch(&name, BranchName::new("feature".to_owned())).is_ok());
    assert!(matches!(
        check_worktree_branch(&name, BranchName::new("other".to_owned())),
        Err(WorktreeRemoveError::BranchNameMismatch { .. })
    ));
}

#[test]
fn directories_cleared_after_removal() {
    let dirs = dirs_to_clear("/base", "a/b/c");
    assert_eq!(dirs.len(), 3);
    assert_eq!(dirs[0], "/base/a/b");
    assert_eq!(dirs[1], "/base/a");
    assert!(dirs_to_clear("/base", "").is_empty());
}

fn worktree(name: &str) -> Worktree {
    Worktree::new(name).unwrap()
}

#[test]
fn cleanup_spares_default_and_persistent_branches() {
    let config = WorktreeRootConfig {
        persistent_branches: Some(vec![
            BranchName::new("release".to_owned()),
            BranchName::new("develop".to_owned()),
        ]),
        track: None,
    };
    assert_eq!(
        configured_default_branch(Some(&config)).unwrap().as_str(),
        "release"
    );
    assert!(configured_default_branch(None).is_none());
    let ws = vec![
        worktree("main"),
        worktree("release"),
        worktree("feature"),
        worktree("develop"),
        worktree("fix"),
    ];
    let main = BranchName::new("main".to_owned());
    let left = cleanup_candidates(ws, &main, Some(&config));
    let names: Vec<&str> = left.iter().map(|w| w.name().as_str()).collect();
    assert_eq!(names, vec!["feature", "fix"]);
}

#[test]
fn cleanup_outcomes() {
    let name = || WorktreeName::new("feature".to_owned()).unwrap();
    assert!(cleanup_outcome(name(), Some(Ok(()))).unwrap().is_none());
    let w = cleanup_outcome(name(), None).unwrap().unwrap();
    assert!(matches!(w.reason, CleanupWorktreeWarningReason::NoDirectory));
    let changes = RepoChanges {
        files_new: 0,
        files_modified: 2,
        files_deleted: 0,
    };
    let w = cleanup_outcome(name(), Some(Err(WorktreeRemoveError::Changes(changes))))
        .unwrap()
        .unwrap();
    assert!(matches!(w.reason, CleanupWorktreeWarningReason::UncommittedChanges(_)));
    assert!(matches!(
        cleanup_outcome(name(), Some(Err(WorktreeRemoveError::DoesNotExist("/x".to_owned())))),
        Err(CleanupWorktreeError::RemoveError(_))
    ));
}

#[test]
fn unmanaged_directories() {
    let ws = vec![worktree("feature")];
    let main = BranchName::new("main".to_owned());
    let entries = vec![
        ".git-main-working-tree".to_owned(),
        "grm.toml".to_owned(),
        "main".to_owned(),
        "feature".to_owned(),
        "stray".to_owned(),
    ];
    assert_eq!(
        unmanaged_worktree_dirs(entries, &ws, Some(&main)),
        vec!["stray".to_owned()]
    );
}

#[test]
fn removal_without_upstream_is_refused() {
    let b = BranchName::new("mybranch".to_owned());
    match check_removal(false, &b, None, 0, None, None) {
        Err(WorktreeRemoveError::NoRemoteTrackingBranch { branch_name }) => assert_eq!(branch_name.as_str(), "mybranch"),
        _ => panic!("expected a refusal"),
    }
    assert!(check_removal(true, &b, None, 0, None, None).is_ok());
    assert_eq!(no_upstream_text("mybranch"), "No remote tracking branch for branch mybranch found");
    let name = WorktreeName::new("mybranch".to_owned()).unwrap();
    let w = cleanup_outcome(name, Some(Err(WorktreeRemoveError::NoRemoteTrackingBranch { branch_name: b })))
        .unwrap()
        .unwrap();
    assert!(matches!(w.reason, CleanupWorktreeWarningReason::NoRemoteTrackingBranch { .. }));
}

fn changes_message(r: Result<(), repo::Error>) -> String {
    match r {
        Err(repo::Error::WorktreeRemovalFailure(WorktreeRemoveFailureReason::Changes(m))) => m,
        _ => panic!("expected a refusal for changes"),
    }
}

#[test]
fn repo_handle_removal_checks() {
    let name = WorktreeName::new("mybranch".to_owned()).unwrap();
    assert_eq!(
        changes_message(check_repo_removal(false, &name, false, None, None)),
        "No remote tracking branch for branch mybranch found"
    );
    assert_eq!(changes_message(check_repo_removal(false, &name, true, None, Some((0, 0)))), "Changes found in worktree");
    assert_eq!(
        changes_message(check_repo_removal(false, &name, false, None, Some((1, 0)))),
        "Branch mybranch is not in line with remote branch"
    );
    assert!(check_repo_removal(false, &name, false, None, Some((0, 0))).is_ok());
    match check_repo_removal(false, &name, false, Some(vec![Some(2)]), None) {
        Err(repo::Error::WorktreeRemovalFailure(WorktreeRemoveFailureReason::NotMerged(m))) => {
            assert_eq!(m, "Branch mybranch is not merged into any persistent branches")
        }
        _ => panic!("expected a refusal for not being merged"),
    }
    assert!(check_repo_removal(false, &name, false, Some(vec![Some(2), Some(0)]), None).is_ok());
    assert!(matches!(
        check_repo_removal(false, &name, false, Some(vec![Some(0), None]), None),
        Err(repo::Error::NotFound)
    ));
    assert!(check_repo_removal(true, &name, true, None, None).is_ok());
}

#[test]
fn adding_needs_a_setup_and_a_new_name() {
    assert!(matches!(setup_open_error(repo::Error::NotFound), Error::NotAWorktreeSetup));
    assert!(matches!(setup_open_error(repo::Error::NoDefaultBranch), Error::Repo(repo::Error::NoDefaultBranch)));
    let name = WorktreeName::new("feature".to_owned()).unwrap();
    assert!(check_worktree_absent(&name, false).is_ok());
    match check_worktree_absent(&name, true) {
        Err(Error::WorktreeAlreadyExists { name }) => assert_eq!(name.as_str(), "feature"),
        _ => panic!("expected the worktree to exist"),
    }
}
