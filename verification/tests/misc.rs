use grm::auth::token_from_command_output;
use grm::config::{self, provider_filter, provider_trees, Config, ConfigTrees, Root};
use grm::grm::{
    check_rebase_args, failure_exit_code, flag_value, no_repos_found, parse_tracking_branch,
    tracking_selection_from_cli, CliError, FailureKind, MainExitCode,
};
use grm::output::repo_message;
use grm::provider::ProjectNamespace;
use grm::repo::{
    ProjectName, ProjectNamespace as RepoNamespace, RemoteTrackingStatus, Repo, RepoChanges,
    RepoStatus, TrackingSelection,
};
use grm::table::{branches_cell, changes_text, repo_row, repo_table_header, trim, upstream_cell};
use grm::tree::{
    configured_remote_action, drop_managed, find_unmanaged_repos, unmanaged_repos, SyncedTree, remotes_to_delete, sync_start,
    OperationResult, RemoteAction, RepoPath, SyncStart,
};
use grm::{
    found_remote, is_excluded, name_found_repo, skipped_warning, tree_of_found, BranchName,
    RemoteName, RemoteUrl, Repos,
};

#[test]
fn token_is_first_line_of_stdout() {
    let t = token_from_command_output(true, "abc\ndef\n".to_owned(), String::new()).unwrap();
    assert_eq!(t.access(), "abc");
    assert_eq!(
        token_from_command_output(false, String::new(), "boom".to_owned()).err().unwrap(),
        "Token command failed: boom"
    );
    assert_eq!(
        token_from_command_output(true, "x".to_owned(), "warn".to_owned()).err().unwrap(),
        "Token command produced stderr: warn"
    );
    assert_eq!(
        token_from_command_output(true, String::new(), String::new()).err().unwrap(),
        "Token command did not produce output"
    );
    assert_eq!(
        token_from_command_output(false, "tok".to_owned(), String::new()).err().unwrap(),
        "Token command failed."
    );
}

#[test]
fn tracking_branch_on_the_command_line() {
    let (r, b) = parse_tracking_branch("origin/me/feature").unwrap();
    assert_eq!(r.as_str(), "origin");
    assert_eq!(b.as_str(), "me/feature");
    assert!(matches!(parse_tracking_branch("origin"), Err(CliError::NoSlashInTrackingBranch)));
    assert!(matches!(parse_tracking_branch("/x"), Err(CliError::TrackingBranchWrongFormat)));
    assert!(matches!(parse_tracking_branch("x/"), Err(CliError::TrackingBranchWrongFormat)));
    assert!(matches!(
        tracking_selection_from_cli(Some("o/b"), true),
        Err(CliError::TrackAndNoTrackInCli)
    ));
    assert!(matches!(tracking_selection_from_cli(None, true), Ok(TrackingSelection::Disabled)));
    assert!(matches!(tracking_selection_from_cli(None, false), Ok(TrackingSelection::Automatic)));
    assert!(matches!(
        tracking_selection_from_cli(Some("o/b"), false),
        Ok(TrackingSelection::Explicit { .. })
    ));
}

#[test]
fn exit_codes() {
    assert_eq!(MainExitCode::Success.code(), 0);
    assert_eq!(MainExitCode::Failure.code(), 1);
    assert_eq!(MainExitCode::Warnings.code(), 2);
    assert_eq!(MainExitCode::Refusal.code(), 3);
    assert_eq!(MainExitCode::Cli.code(), 4);
    assert_eq!(failure_exit_code(FailureKind::WorktreeRemovalRefuse), MainExitCode::Refusal);
    assert_eq!(failure_exit_code(FailureKind::CmdRebaseWithoutPull), MainExitCode::Cli);
    assert_eq!(failure_exit_code(FailureKind::Other), MainExitCode::Failure);
    assert_eq!(MainExitCode::from_warnings(true), MainExitCode::Warnings);
    assert!(matches!(check_rebase_args(false, true), Err(CliError::CmdRebaseWithoutPull)));
    assert!(check_rebase_args(true, true).is_ok());
    assert!(flag_value("true"));
    assert!(!flag_value("false"));
}

#[test]
fn messages_about_repositories() {
    assert_eq!(repo_message("tool", "OK"), "tool: OK");
    assert_eq!(skipped_warning("/x/y").as_str(), "[skipped] /x/y");
}

#[test]
fn table_cells() {
    assert_eq!(trim("  a b \n"), "a b");
    assert_eq!(changes_text(None), "\u{2714}");
    assert_eq!(
        changes_text(Some(RepoChanges {
            files_new: 3,
            files_modified: 0,
            files_deleted: 12
        })),
        "New: 3\nDeleted: 12"
    );
    let branches = vec![
        (BranchName::new("main".to_owned()), Some((BranchName::new("origin/main".to_owned()), RemoteTrackingStatus::UpToDate))),
        (BranchName::new("wip".to_owned()), None),
        (BranchName::new("f".to_owned()), Some((BranchName::new("origin/f".to_owned()), RemoteTrackingStatus::Diverged(1, 20)))),
    ];
    assert_eq!(
        branches_cell(&branches),
        "branch: main <origin/main> \u{2714}\nbranch: wip <!local>\nbranch: f <origin/f> [+1/-20]"
    );
    let up = BranchName::new("origin/f".to_owned());
    assert_eq!(upstream_cell(Some((&up, 0, 4))), "origin/f [-4]\n");
    assert_eq!(upstream_cell(Some((&up, 0, 0))), "origin/f\n");
    assert_eq!(upstream_cell(None), "");
}

#[test]
fn repository_row() {
    let status = RepoStatus {
        operation: None,
        empty: false,
        remotes: vec![RemoteName::new("origin".to_owned()), RemoteName::new("fork".to_owned())],
        head: Some(BranchName::new("main".to_owned())),
        changes: None,
        worktrees: 0,
        submodules: None,
        branches: Vec::new(),
    };
    let name = ProjectName::new("tool".to_owned());
    let row = repo_row(Some(&name), false, &status);
    assert_eq!(row, vec!["tool", "", "\u{2714}", "", "main", "origin\nfork"]);
    let row = repo_row(None, true, &status);
    assert_eq!(row, vec!["unknown", "\u{2714}", "", "", "", "origin\nfork"]);
    assert_eq!(repo_table_header().len(), row.len());
}

fn repo(name: &str) -> Repo {
    Repo {
        name: ProjectName::new(name.to_owned()),
        namespace: None,
        worktree_setup: false,
        remotes: Vec::new(),
    }
}

#[test]
fn unmanaged_repositories() {
    let managed = vec![repo("a"), Repo {
        namespace: Some(RepoNamespace::new("ns".to_owned())),
        ..repo("b")
    }];
    let found = vec!["/root/a".to_owned(), "/root/ns/b".to_owned(), "/root/c".to_owned()];
    let unmanaged = find_unmanaged_repos("/root", &managed, &found);
    assert_eq!(unmanaged, vec![RepoPath::new("/root/c".to_owned())]);
    let left = drop_managed(
        vec![RepoPath::new("/root/c".to_owned()), RepoPath::new("/other/d".to_owned())],
        &vec![RepoPath::new("/root/c".to_owned())],
    );
    assert_eq!(left, vec![RepoPath::new("/other/d".to_owned())]);
}

#[test]
fn unmanaged_across_nested_trees() {
    let outer = SyncedTree {
        root: "/root".to_owned(),
        repos: vec![repo("a")],
        found: vec!["/root/a".to_owned(), "/root/inner/b".to_owned(), "/root/c".to_owned()],
    };
    let inner = SyncedTree {
        root: "/root/inner".to_owned(),
        repos: vec![repo("b")],
        found: vec!["/root/inner/b".to_owned()],
    };
    let shared = SyncedTree {
        root: "/root".to_owned(),
        repos: vec![repo("c")],
        found: vec!["/root/a".to_owned(), "/root/inner/b".to_owned(), "/root/c".to_owned()],
    };
    assert!(unmanaged_repos(&vec![outer, inner, shared]).is_empty());
    let alone = SyncedTree {
        root: "/root".to_owned(),
        repos: vec![repo("a")],
        found: vec!["/root/a".to_owned(), "/root/c".to_owned()],
    };
    assert_eq!(unmanaged_repos(&vec![alone]), vec![RepoPath::new("/root/c".to_owned())]);
}

#[test]
fn remote_reconciliation() {
    let configured = vec![grm::repo::Remote {
        name: RemoteName::new("origin".to_owned()),
        url: RemoteUrl::new("https://new".to_owned()),
        remote_type: grm::repo::RemoteType::Https,
    }];
    assert!(configured_remote_action(&configured[0], Some(&RemoteUrl::new("https://new".to_owned()))).is_none());
    assert!(matches!(
        configured_remote_action(&configured[0], Some(&RemoteUrl::new("https://old".to_owned()))),
        Some(RemoteAction::Update { .. })
    ));
    assert!(matches!(
        configured_remote_action(&configured[0], None),
        Some(RemoteAction::Create { .. })
    ));
    let current = vec![RemoteName::new("stale".to_owned()), RemoteName::new("origin".to_owned())];
    let gone = remotes_to_delete(&current, &configured);
    assert_eq!(gone, vec![RemoteName::new("stale".to_owned())]);
}

#[test]
fn sync_start_decisions() {
    assert!(matches!(sync_start(true, true, false, true), Err(grm::tree::Error::WorktreeExpected)));
    assert!(matches!(sync_start(true, true, true, false), Ok(SyncStart::Existing)));
    assert!(matches!(sync_start(false, false, false, true), Ok(SyncStart::Clone)));
    assert!(matches!(sync_start(false, false, false, false), Ok(SyncStart::Init)));
    assert!(OperationResult::from_failures(true).is_failure());
    assert!(OperationResult::Success.is_success());
}

#[test]
fn normalizing_config_roots() {
    let mut c = Config::from_trees(vec![
        config::Tree { root: Root::new("/home/me/code".to_owned()), repos: None },
        config::Tree { root: Root::new("/srv/code".to_owned()), repos: Some(Vec::new()) },
    ]);
    c.normalize("/home/me").unwrap();
    match c {
        Config::ConfigTrees(t) => {
            assert_eq!(t.trees[0].root.as_str(), "~/code");
            assert_eq!(t.trees[1].root.as_str(), "/srv/code");
        }
        Config::ConfigProvider(_) => panic!("trees stay trees"),
    }
}

#[test]
fn provider_configuration() {
    let f = provider_filter(None);
    assert!(f.empty());
    let f = provider_filter(Some(config::ConfigProviderFilter {
        access: None,
        owner: Some(true),
        users: Some(vec![config::User::new("me".to_owned())]),
        groups: None,
    }));
    assert!(f.owner());
    assert!(!f.access());
    assert_eq!(f.users().len(), 1);
    let trees = provider_trees(
        "/code",
        vec![
            (Some(ProjectNamespace::new("me".to_owned())), vec![repo("a")]),
            (None, vec![repo("b")]),
        ],
    );
    assert_eq!(trees[0].root.as_str(), "/code/me");
    assert_eq!(trees[1].root.as_str(), "/code");
    assert!(!no_repos_found(&trees));
    let empty = ConfigTrees::from_vec(vec![config::Tree { root: Root::new("/x".to_owned()), repos: Some(Vec::new()) }]);
    assert!(no_repos_found(empty.trees_ref()));
}

#[test]
fn finding_repositories() {
    assert!(!is_excluded(None, "/x").unwrap());
    assert!(is_excluded(Some("tmp"), "/x/tmp/y").unwrap());
    assert!(matches!(is_excluded(Some("("), "/x"), Err(grm::Error::InvalidRegex { .. })));

    let (ns, name) = name_found_repo("/root/group/sub/tool", "/root").unwrap().unwrap();
    assert_eq!(name.as_str(), "group/sub/tool");
    assert_eq!(ns.unwrap().as_str(), "group/sub");
    let (ns, name) = name_found_repo("/root/tool", "/root").unwrap().unwrap();
    assert!(ns.is_none());
    assert_eq!(name.as_str(), "tool");
    let (ns, name) = name_found_repo("/root", "/root").unwrap().unwrap();
    assert!(ns.is_none());
    assert_eq!(name.as_str(), "root");
    assert!(name_found_repo("/elsewhere/x", "/root").is_none());

    let remote = found_remote("/root/tool", RemoteName::new("origin".to_owned()), RemoteUrl::new("ssh://h/x".to_owned())).unwrap();
    assert_eq!(remote.remote_type, grm::repo::RemoteType::Ssh);
    let w = found_remote("/root/tool", RemoteName::new("o".to_owned()), RemoteUrl::new("http://h/x".to_owned())).err().unwrap();
    assert_eq!(
        w.as_str(),
        "/root/tool: Could not handle URL http://h/x. Reason: Remotes using HTTP protocol are not supported"
    );

    let t = tree_of_found("/root/tool", Repos::InSearchRoot(repo("tool"))).unwrap();
    assert_eq!(t.root.as_path(), "/root");
    assert_eq!(t.repos.len(), 1);
    let t = tree_of_found("/root", Repos::List(vec![repo("a"), repo("b")])).unwrap();
    assert_eq!(t.root.as_path(), "/root");
    assert_eq!(t.repos.len(), 2);
}

#[test]
fn worktree_status_table_is_drawn() {
    let table = grm::table::worktree_status_table(vec![vec![
        "mybranch".to_owned(),
        "✔".to_owned(),
        "mybranch".to_owned(),
        String::new(),
    ]]);
    let expected = [
        "╭──────────┬────────┬──────────┬───────────────╮",
        "│ Worktree ┆ Status ┆ Branch   ┆ Remote branch │",
        "╞══════════╪════════╪══════════╪═══════════════╡",
        "│ mybranch ┆ ✔      ┆ mybranch ┆               │",
        "╰──────────┴────────┴──────────┴───────────────╯",
    ]
    .join("\n");
    assert_eq!(table, expected);
}

#[test]
fn search_steps() {
    let mut repos = Vec::new();
    let mut warnings = Vec::new();
    let mut in_root = false;
    grm::record_found_path(&mut repos, &mut warnings, &mut in_root, "/s/x", "/s", grm::PathProbe::Excluded);
    assert_eq!(warnings.last().unwrap().as_str(), "[skipped] /s/x");
    grm::record_found_path(
        &mut repos,
        &mut warnings,
        &mut in_root,
        "/s/y",
        "/s",
        grm::PathProbe::OpenFailed { worktree_setup: true, message: "boom".to_owned() },
    );
    assert_eq!(warnings.last().unwrap().as_str(), "Error opening repo /s/y as worktree: boom");
    grm::record_found_path(
        &mut repos,
        &mut warnings,
        &mut in_root,
        "/s/ns/z",
        "/s",
        grm::PathProbe::Opened { worktree_setup: false, remotes: Vec::new(), remote_warnings: Vec::new() },
    );
    assert_eq!(warnings.len(), 2);
    assert_eq!(repos.len(), 1);
    assert_eq!(repos[0].name.as_str(), "ns/z");
    assert_eq!(repos[0].namespace.as_ref().unwrap().as_str(), "ns");
    assert!(!in_root);
    grm::record_found_path(&mut repos, &mut warnings, &mut in_root, "/s", "/s", grm::PathProbe::RemotesFailed {
        message: "no".to_owned(),
    });
    assert!(in_root);
    assert_eq!(warnings.last().unwrap().as_str(), "/s: Error getting remotes: no");
}
