use grm::config;
use grm::repo::{
    branch_basename, choose_default_branch, count_changes, detect_remote_type, is_pushable_url,
    push_refspec, remote_head_branch, submodule_status, update_start, Error, FileStatus, ProjectName,
    ProjectNamespace, Remote, RemoteTrackingStatus, RemoteType, Repo, RepoChanges, SubmoduleFlags,
    SubmoduleStatus, UpdateStart,
};
use grm::{BranchName, RemoteName, RemoteUrl};

#[test]
fn check_ssh_remote() -> Result<(), Error> {
    assert_eq!(
        detect_remote_type(&RemoteUrl::new("ssh://git@example.com".to_owned()))?,
        RemoteType::Ssh
    );
    assert_eq!(
        detect_remote_type(&RemoteUrl::new("git@example.git".to_owned()))?,
        RemoteType::Ssh
    );
    Ok(())
}

#[test]
fn check_https_remote() -> Result<(), Error> {
    assert_eq!(
        detect_remote_type(&RemoteUrl::new("https://example.com".to_owned()))?,
        RemoteType::Https
    );
    assert_eq!(
        detect_remote_type(&RemoteUrl::new("https://example.com/test.git".to_owned()))?,
        RemoteType::Https
    );
    Ok(())
}

#[test]
fn check_file_remote() -> Result<(), Error> {
    assert_eq!(
        detect_remote_type(&RemoteUrl::new("file:///somedir".to_owned()))?,
        RemoteType::File
    );
    Ok(())
}

#[test]
fn check_invalid_remotes() {
    assert!(matches!(
        detect_remote_type(&RemoteUrl::new("https//example.com".to_owned())),
        Err(Error::UnimplementedRemoteProtocol)
    ));
    assert!(matches!(
        detect_remote_type(&RemoteUrl::new("https:example.com".to_owned())),
        Err(Error::UnimplementedRemoteProtocol)
    ));
    assert!(matches!(
        detect_remote_type(&RemoteUrl::new("ssh//example.com".to_owned())),
        Err(Error::UnimplementedRemoteProtocol)
    ));
    assert!(matches!(
        detect_remote_type(&RemoteUrl::new("ssh:example.com".to_owned())),
        Err(Error::UnimplementedRemoteProtocol)
    ));
    assert!(matches!(
        detect_remote_type(&RemoteUrl::new("git@example.com".to_owned())),
        Err(Error::UnimplementedRemoteProtocol)
    ));
}

#[test]
fn check_unsupported_protocol_http() {
    assert!(matches!(
        detect_remote_type(&RemoteUrl::new("http://example.com".to_owned())),
        Err(Error::UnsupportedHttpRemote)
    ));
}

#[test]
fn check_unsupported_protocol_git() {
    assert!(matches!(
        detect_remote_type(&RemoteUrl::new("git://example.com".to_owned())),
        Err(Error::UnsupportedGitRemote)
    ));
}

#[test]
fn repo_check_fullname() {
    let with_namespace = Repo {
        name: ProjectName::new("name".to_owned()),
        namespace: Some(ProjectNamespace::new("namespace".to_owned())),
        worktree_setup: false,
        remotes: Vec::new(),
    };

    let without_namespace = Repo {
        name: ProjectName::new("name".to_owned()),
        namespace: None,
        worktree_setup: false,
        remotes: Vec::new(),
    };

    assert_eq!(
        with_namespace.fullname(),
        ProjectName::new("namespace/name".to_owned())
    );
    assert_eq!(
        without_namespace.fullname(),
        ProjectName::new("name".to_owned())
    );
}

#[test]
fn configured_name_with_slash_is_split_at_the_last_one() {
    let c = config::Repo {
        name: "group/sub/project".to_owned(),
        worktree_setup: true,
        remotes: Some(vec![config::Remote {
            name: "origin".to_owned(),
            url: "git@example.com:group/sub/project.git".to_owned(),
            remote_type: config::RemoteType::Ssh,
        }]),
    };
    let r = Repo::from_config(c);
    assert_eq!(r.name.as_str(), "project");
    assert_eq!(r.namespace.as_ref().map(|n| n.as_str()), Some("group/sub"));
    assert!(r.worktree_setup);
    assert_eq!(r.remotes.len(), 1);
    assert_eq!(r.remotes[0].remote_type, RemoteType::Ssh);
    assert_eq!(r.fullname(), ProjectName::new("group/sub/project".to_owned()));

    let back = r.into_config();
    assert_eq!(back.name, "project");
    let remotes = back.remotes.expect("remotes are always written");
    assert_eq!(remotes[0].name, "origin");
    assert_eq!(remotes[0].remote_type, config::RemoteType::Ssh);
}

#[test]
fn configured_repo_without_remotes_has_none() {
    let r = Repo::from_config(config::Repo {
        name: "plain".to_owned(),
        worktree_setup: false,
        remotes: None,
    });
    assert!(r.namespace.is_none());
    assert!(r.remotes.is_empty());
}

#[test]
fn remote_round_trip_keeps_everything() {
    let r = Remote::from_config(config::Remote {
        name: "upstream".to_owned(),
        url: "https://example.com/x.git".to_owned(),
        remote_type: config::RemoteType::Https,
    });
    let c = r.into_config();
    assert_eq!(c.name, "upstream");
    assert_eq!(c.url, "https://example.com/x.git");
    assert_eq!(c.remote_type, config::RemoteType::Https);
}

#[test]
fn remote_head_pointer_names_the_default_branch() {
    let origin = RemoteName::new("origin".to_owned());
    let b = remote_head_branch(&origin, Some("refs/remotes/origin/main")).expect("valid pointer");
    assert_eq!(b.as_str(), "main");
    assert!(matches!(
        remote_head_branch(&origin, Some("refs/remotes/other/main")),
        Err(Error::InvalidRemoteHeadPointer { ref name }) if name == "refs/remotes/other/main"
    ));
    assert!(matches!(
        remote_head_branch(&origin, None),
        Err(Error::RemoteHeadNoSymbolicTarget)
    ));
}

#[test]
fn push_refspec_is_forced_branch_to_branch() {
    let r = push_refspec(
        &BranchName::new("feature".to_owned()),
        &BranchName::new("me/feature".to_owned()),
    );
    assert_eq!(r, "+refs/heads/feature:refs/heads/me/feature");
}

#[test]
fn basename_drops_the_remote() {
    assert_eq!(branch_basename(&BranchName::new("origin/me/x".to_owned())).as_str(), "me/x");
    assert_eq!(branch_basename(&BranchName::new("plain".to_owned())).as_str(), "plain");
}

fn status(modified: bool, new: bool, deleted: bool, ignored: bool) -> FileStatus {
    FileStatus {
        index_new: false,
        index_modified: false,
        index_deleted: deleted,
        index_renamed: false,
        index_typechange: false,
        wt_new: new,
        wt_modified: modified,
        wt_deleted: false,
        wt_typechange: false,
        wt_renamed: false,
        ignored,
    }
}

#[test]
fn changes_are_counted_by_precedence() {
    assert!(count_changes(&Vec::new()).is_none());
    let listing = vec![
        status(true, true, false, false),
        status(false, true, false, false),
        status(false, false, true, false),
        status(false, true, true, false),
    ];
    let c = count_changes(&listing).expect("files were listed");
    assert_eq!(
        c,
        RepoChanges {
            files_new: 2,
            files_modified: 1,
            files_deleted: 1
        }
    );
    assert!(!grm::repo::has_ignored_files(&listing));
    assert!(grm::repo::has_ignored_files(&vec![status(false, false, false, true)]));
}

#[test]
fn submodule_states() {
    let flags = SubmoduleFlags {
        wd_index_modified: false,
        wd_wd_modified: false,
        wd_untracked: false,
        wd_uninitialized: true,
        wd_modified: true,
    };
    assert_eq!(submodule_status(flags), SubmoduleStatus::Uninitialized);
    let changed = SubmoduleFlags {
        wd_untracked: true,
        ..flags
    };
    assert_eq!(submodule_status(changed), SubmoduleStatus::Changed);
    let clean = SubmoduleFlags {
        wd_uninitialized: false,
        wd_modified: false,
        ..flags
    };
    assert_eq!(submodule_status(clean), SubmoduleStatus::Clean);
}

#[test]
fn tracking_status_from_counts() {
    assert_eq!(RemoteTrackingStatus::from_ahead_behind(0, 0), RemoteTrackingStatus::UpToDate);
    assert_eq!(RemoteTrackingStatus::from_ahead_behind(2, 0), RemoteTrackingStatus::Ahead(2));
    assert_eq!(RemoteTrackingStatus::from_ahead_behind(0, 3), RemoteTrackingStatus::Behind(3));
    assert_eq!(
        RemoteTrackingStatus::from_ahead_behind(2, 3),
        RemoteTrackingStatus::Diverged(2, 3)
    );
}

#[test]
fn default_branch_choice() {
    let agree = vec![
        BranchName::new("develop".to_owned()),
        BranchName::new("develop".to_owned()),
    ];
    assert_eq!(choose_default_branch(&agree, true, true).unwrap().as_str(), "develop");
    let disagree = vec![
        BranchName::new("develop".to_owned()),
        BranchName::new("trunk".to_owned()),
    ];
    assert_eq!(choose_default_branch(&disagree, false, true).unwrap().as_str(), "master");
    assert_eq!(choose_default_branch(&Vec::new(), true, true).unwrap().as_str(), "main");
    assert!(matches!(
        choose_default_branch(&Vec::new(), false, false),
        Err(Error::NoDefaultBranch)
    ));
}

#[test]
fn updating_a_worktree_with_changes() {
    assert!(matches!(update_start(true, false), UpdateStart::Proceed { stash: false }));
    assert!(matches!(update_start(false, true), UpdateStart::Proceed { stash: true }));
    match update_start(false, false) {
        UpdateStart::Skip(w) => assert_eq!(w.as_str(), "Worktree contains changes"),
        UpdateStart::Proceed { .. } => panic!("changes without stash must be skipped"),
    }
}

#[test]
fn pushable_remotes() {
    assert!(is_pushable_url(&RemoteUrl::new("ssh://git@example.com/x".to_owned())).unwrap());
    assert!(is_pushable_url(&RemoteUrl::new("file:///tmp/x".to_owned())).unwrap());
    assert!(!is_pushable_url(&RemoteUrl::new("https://example.com/x".to_owned())).unwrap());
    assert!(matches!(
        is_pushable_url(&RemoteUrl::new("http://example.com/x".to_owned())),
        Err(Error::UnsupportedHttpRemote)
    ));
}
