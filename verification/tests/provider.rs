use grm::auth::AuthToken;
use grm::provider::gitea::Gitea;
use grm::provider::github::GithubProject;
use grm::provider::gitlab::{GitlabProject, GitlabVisibility};
use grm::provider::{
    add_listing, escape, forge_queries, group_by_namespace, query_error, ForgeQuery, group_error_message, merge_projects, next_page_url,
    repos_of_projects, Error, Filter, Github, Gitlab, Group, Project, ProjectNamespace,
    ProtocolConfig, Url, User,
};
use grm::repo::{RemoteType, WorktreeSetup};
use grm::RemoteName;

fn github_project(full_name: &str, private: bool) -> GithubProject {
    let name = full_name.rsplit_once('/').map_or(full_name, |(_, n)| n);
    GithubProject {
        name: name.to_owned(),
        full_name: full_name.to_owned(),
        clone_url: format!("https://github.com/{full_name}.git"),
        ssh_url: format!("git@github.com:{full_name}.git"),
        private,
    }
}

fn token() -> AuthToken {
    AuthToken::new("secret".to_owned())
}

fn filter() -> Filter {
    Filter::new(vec![User::new("me".to_owned())], Vec::new(), false, false)
}

#[test]
fn github_urls() {
    let g = Github::new(filter(), token(), None).unwrap();
    assert_eq!(g.api_url().as_str(), "https://api.github.com");
    assert_eq!(
        g.user_projects_url(&User::new("a b".to_owned())).as_str(),
        "https://api.github.com/users/a%20b/repos"
    );
    assert_eq!(
        g.group_projects_url(&Group::new("org".to_owned())).as_str(),
        "https://api.github.com/orgs/org/repos?type=all"
    );
    assert_eq!(g.accessible_projects_url().as_str(), "https://api.github.com/user/repos");
    assert_eq!(g.current_user_url().as_str(), "https://api.github.com/user");
    assert_eq!(Github::auth_header_key(), "token");

    let custom = Github::new(filter(), token(), Some(Url::new("https://ghe.example.com/api//".to_owned()))).unwrap();
    assert_eq!(custom.api_url().as_str(), "https://ghe.example.com/api");
}

#[test]
fn gitlab_urls() {
    let g = Gitlab::new(filter(), token(), None).unwrap();
    assert_eq!(
        g.user_projects_url(&User::new("me".to_owned())).as_str(),
        "https://gitlab.com/api/v4/users/me/projects"
    );
    assert_eq!(
        g.group_projects_url(&Group::new("a/b".to_owned())).as_str(),
        "https://gitlab.com/api/v4/groups/a%2Fb/projects?include_subgroups=true&archived=false"
    );
    assert_eq!(g.accessible_projects_url().as_str(), "https://gitlab.com/api/v4/projects");
    assert_eq!(g.current_user_url().as_str(), "https://gitlab.com/api/v4/user");
    assert_eq!(Gitlab::auth_header_key(), "bearer");
}

#[test]
fn escaping_changes_reserved_characters() {
    assert_eq!(escape("a/b c"), "a%2Fb%20c");
    assert_eq!(escape("plain"), "plain");
}

#[test]
fn public_projects_clone_over_https() {
    let p = github_project("me/tool", false);
    assert_eq!(p.namespace().unwrap().as_str(), "me");
    let r = github_project("me/tool", false).into_repo_config(
        &RemoteName::new("origin".to_owned()),
        WorktreeSetup::Worktree,
        ProtocolConfig::Default,
    );
    assert_eq!(r.name.as_str(), "tool");
    assert_eq!(r.namespace.as_ref().unwrap().as_str(), "me");
    assert!(r.worktree_setup);
    assert_eq!(r.remotes[0].url.as_str(), "https://github.com/me/tool.git");
    assert_eq!(r.remotes[0].remote_type, RemoteType::Https);

    let forced = github_project("me/tool", false).into_repo_config(
        &RemoteName::new("origin".to_owned()),
        WorktreeSetup::NoWorktree,
        ProtocolConfig::ForceSsh,
    );
    assert_eq!(forced.remotes[0].url.as_str(), "git@github.com:me/tool.git");
    assert_eq!(forced.remotes[0].remote_type, RemoteType::Ssh);
}

#[test]
fn private_projects_clone_over_ssh() {
    let p = GitlabProject {
        name: "tool".to_owned(),
        path_with_namespace: "group/sub/tool".to_owned(),
        http_url_to_repo: "https://gitlab.com/group/sub/tool.git".to_owned(),
        ssh_url_to_repo: "git@gitlab.com:group/sub/tool.git".to_owned(),
        visibility: GitlabVisibility::Internal,
    };
    assert!(p.private());
    assert_eq!(p.namespace().unwrap().as_str(), "group/sub");
    let r = p.into_repo_config(
        &RemoteName::new("up".to_owned()),
        WorktreeSetup::NoWorktree,
        ProtocolConfig::Default,
    );
    assert_eq!(r.remotes[0].name.as_str(), "up");
    assert_eq!(r.remotes[0].remote_type, RemoteType::Ssh);
}

#[test]
fn merging_listings_drops_duplicates() {
    let mut repos = vec![github_project("me/a", false)];
    merge_projects(
        &mut repos,
        vec![
            github_project("me/a", true),
            github_project("me/b", false),
            github_project("org/a", false),
            github_project("me/b", false),
        ],
    );
    let names: Vec<&str> = repos.iter().map(|p| p.full_name.as_str()).collect();
    assert_eq!(names, vec!["me/a", "me/b", "org/a"]);
    assert!(!repos[0].private);
}

#[test]
fn listing_is_grouped_by_namespace() {
    let projects = vec![
        github_project("me/a", false),
        github_project("org/x", false),
        github_project("me/b", false),
        github_project("solo", false),
    ];
    let repos = repos_of_projects(projects, None, WorktreeSetup::NoWorktree, ProtocolConfig::Default);
    assert_eq!(repos.len(), 4);
    assert!(repos.iter().all(|(_, r)| r.namespace.is_none()));
    assert_eq!(repos[0].1.remotes[0].name.as_str(), "origin");
    let groups = group_by_namespace(repos);
    assert_eq!(groups.len(), 3);
    assert_eq!(groups[0].0.as_ref().map(ProjectNamespace::as_str), Some("me"));
    let me: Vec<&str> = groups[0].1.iter().map(|r| r.name.as_str()).collect();
    assert_eq!(me, vec!["a", "b"]);
    assert_eq!(groups[1].0.as_ref().map(ProjectNamespace::as_str), Some("org"));
    assert!(groups[2].0.is_none());
    assert_eq!(groups[2].1[0].name.as_str(), "solo");
}

#[test]
fn link_header_gives_next_page() {
    let link = r#"<https://api.github.com/x?page=2>; rel="next", <https://api.github.com/x?page=5>; rel="last""#;
    let next = next_page_url(link).unwrap().unwrap();
    assert_eq!(next.as_str(), "https://api.github.com/x?page=2");
    let last_only = r#"<https://api.github.com/x?page=5>; rel="last""#;
    assert!(next_page_url(last_only).unwrap().is_none());
}

#[test]
fn filters() {
    assert!(Filter::new(Vec::new(), Vec::new(), false, false).empty());
    assert!(!Filter::new(Vec::new(), Vec::new(), true, false).empty());
    assert!(!filter().empty());
}

#[test]
fn gitea_needs_a_url() {
    assert!(matches!(Gitea::new(token(), None), Err(Error::Provider(ref m)) if m == "gitea always need a URL"));
    assert!(Gitea::new(token(), Some(Url::new("https://gitea.example.com".to_owned()))).is_ok());
}

#[test]
fn group_errors_name_the_group() {
    assert_eq!(
        group_error_message(&Group::new("org".to_owned()), "not found"),
        "group \"org\": not found"
    );
}

fn query_names(filter: &Filter) -> Vec<String> {
    forge_queries(filter)
        .iter()
        .map(|q| match q {
            ForgeQuery::OwnProjects => "own".to_owned(),
            ForgeQuery::Accessible => "access".to_owned(),
            ForgeQuery::UserProjects(u) => format!("user {}", u.as_str()),
            ForgeQuery::GroupProjects(g) => format!("group {}", g.as_str()),
        })
        .collect()
}

#[test]
fn filters_add_up() {
    let all = Filter::new(
        vec![User::new("a".to_owned()), User::new("b".to_owned())],
        vec![Group::new("g".to_owned())],
        true,
        true,
    );
    assert_eq!(query_names(&all), vec!["own", "access", "user a", "user b", "group g"]);
    let users = Filter::new(vec![User::new("a".to_owned())], Vec::new(), false, false);
    assert_eq!(query_names(&users), vec!["user a"]);
    let empty = Filter::new(Vec::new(), Vec::new(), false, false);
    assert!(forge_queries(&empty).is_empty());
}

#[test]
fn listings_are_merged() {
    let mut repos = vec![github_project("me/a", false)];
    add_listing(&mut repos, &ForgeQuery::OwnProjects, vec![github_project("me/a", false), github_project("me/b", false)]);
    assert_eq!(repos.len(), 3);
    add_listing(
        &mut repos,
        &ForgeQuery::Accessible,
        vec![github_project("me/b", true), github_project("org/c", false)],
    );
    let names: Vec<String> = repos.iter().map(|p| p.name().as_str().to_owned()).collect();
    assert_eq!(names, vec!["a", "a", "b", "c"]);
}

#[test]
fn listing_errors() {
    match query_error(&ForgeQuery::GroupProjects(Group::new("g".to_owned())), "denied") {
        Error::Response(m) => assert_eq!(m, "group \"g\": denied"),
        _ => panic!("expected a response error"),
    }
    match query_error(&ForgeQuery::Accessible, "denied") {
        Error::Response(m) => assert_eq!(m, "denied"),
        _ => panic!("expected a response error"),
    }
}
