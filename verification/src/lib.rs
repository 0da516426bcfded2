//! Git repository manager: declarative management of git repositories and
//! worktrees. This crate holds the data model and every decision of the
//! tool; `app/` performs the git, file system, network and terminal work.

pub mod auth;
pub mod cmd;
pub mod config;
pub mod grm;
pub mod output;
pub mod path;
pub mod provider;
pub mod repo;
pub mod table;
pub mod text;
pub mod tree;
pub mod worktree;

use vstd::prelude::*;

use path::{path_eq, path_parent, path_starts_with, path_strip_prefix, spec_path_eq,
    spec_path_parent, spec_path_starts_with, spec_path_strip_prefix};
use repo::{detect_remote_type, remote_error_message, remote_type_of, ProjectName,
    ProjectNamespace, SCP_LIKE_URL_PATTERN};
use text::{str_concat, str_concat3, regex_is_match, spec_regex_is_match};

pub use repo::remote::{RemoteName, RemoteUrl};

verus! {

/// The name of a local or remote branch.
#[derive(Debug, PartialEq, Eq)]
pub struct BranchName(String);

impl View for BranchName {
    type V = Seq<char>;

    closed spec fn view(&self) -> Seq<char> {
        self.0@
    }
}

impl Clone for BranchName {
    fn clone(&self) -> (res: Self)
        ensures
            res@ == self@,
    {
        BranchName(self.0.clone())
    }
}

impl BranchName {
    pub fn new(from: String) -> (res: Self)
        ensures
            res@ == from@,
    {
        Self(from)
    }

    pub fn as_str(&self) -> (res: &str)
        ensures
            res@ == self@,
    {
        self.0.as_str()
    }

    pub fn into_string(self) -> (res: String)
        ensures
            res@ == self@,
    {
        self.0
    }
}

/// The name of a submodule.
#[derive(Debug, PartialEq, Eq)]
pub struct SubmoduleName(String);

impl View for SubmoduleName {
    type V = Seq<char>;

    closed spec fn view(&self) -> Seq<char> {
        self.0@
    }
}

impl Clone for SubmoduleName {
    fn clone(&self) -> (res: Self)
        ensures
            res@ == self@,
    {
        SubmoduleName(self.0.clone())
    }
}

impl SubmoduleName {
    pub fn new(from: String) -> (res: Self)
        ensures
            res@ == from@,
    {
        Self(from)
    }

    pub fn as_str(&self) -> (res: &str)
        ensures
            res@ == self@,
    {
        self.0.as_str()
    }

    pub fn into_string(self) -> (res: String)
        ensures
            res@ == self@,
    {
        self.0
    }
}

/// A message about something that did not stop the work.
#[derive(Debug, PartialEq, Eq)]
pub struct Warning(String);

impl View for Warning {
    type V = Seq<char>;

    closed spec fn view(&self) -> Seq<char> {
        self.0@
    }
}

impl Warning {
    pub fn new(message: String) -> (res: Self)
        ensures
            res@ == message@,
    {
        Self(message)
    }

    pub fn as_str(&self) -> (res: &str)
        ensures
            res@ == self@,
    {
        self.0.as_str()
    }
}

/// Errors of finding repositories.
#[derive(Debug)]
pub enum Error {
    Repo(repo::Error),
    Tree(tree::Error),
    InvalidRegex { message: String },
    CannotDetectRootDirectory,
    Path(path::Error),
}

broadcast use repo::remote::RemoteName::lemma_spec_new_view, repo::remote::RemoteUrl::lemma_spec_new_view;

/// The repositories a search found: the one repository that is the search
/// root itself, or those below it.
pub enum Repos {
    InSearchRoot(repo::Repo),
    List(Vec<repo::Repo>),
}

/// What a search found, and what it warned about.
pub struct FindResult {
    pub repos: Repos,
    pub warnings: Vec<Warning>,
}

/// Whether the exclusion pattern, if there is one, matches `path`; a
/// pattern that does not build is an error.
pub fn is_excluded(pattern: Option<&str>, path: &str) -> (r: Result<bool, Error>)
    ensures
        match pattern {
            None => r == Ok::<bool, Error>(false),
            Some(p) => match spec_regex_is_match(p@, path@) {
                Ok(m) => r == Ok::<bool, Error>(m),
                Err(message) => r matches Err(Error::InvalidRegex { message: e }) && e@ == message,
            },
        },
{
    match pattern {
        None => Ok(false),
        Some(p) => match regex_is_match(p, path) {
            Ok(m) => Ok(m),
            Err(message) => Err(Error::InvalidRegex { message }),
        },
    }
}

/// The warning about a path that the exclusion pattern skips.
pub fn skipped_warning(path: &str) -> (r: Warning)
    ensures
        r@ == "[skipped] "@ + path@,
{
    Warning(str_concat("[skipped] ", path))
}

/// The warning about a repository that could not be opened.
pub fn open_error_warning(path: &str, worktree_setup: bool, message: &str) -> (r: Warning)
    ensures
        r@ == "Error opening repo "@ + path@ + (if worktree_setup { " as worktree"@ } else { Seq::empty() })
            + ": "@ + message@,
{
    let mut m = str_concat("Error opening repo ", path);
    if worktree_setup {
        m.append(" as worktree");
    }
    m.append(": ");
    m.append(message);
    Warning(m)
}

/// The warning about a repository whose remotes could not be listed.
pub fn remotes_error_warning(path: &str, message: &str) -> (r: Warning)
    ensures
        r@ == path@ + ": Error getting remotes: "@ + message@,
{
    Warning(str_concat3(path, ": Error getting remotes: ", message))
}

/// The warning about a listed remote that could not be found.
pub fn remote_not_found_warning(path: &str, name: &RemoteName) -> (r: Warning)
    ensures
        r@ == path@ + ": Remote "@ + name@ + " not found"@,
{
    let mut m = str_concat3(path, ": Remote ", name.as_str());
    m.append(" not found");
    Warning(m)
}

/// The remote `name` at `url` of the repository at `path`, with its
/// protocol; a URL of no supported protocol gives a warning instead:
/// `<path>: Could not handle URL <url>. Reason: <why>`.
pub fn found_remote(path: &str, name: RemoteName, url: RemoteUrl) -> (r: Result<repo::Remote, Warning>)
    ensures
        match spec_regex_is_match(SCP_LIKE_URL_PATTERN@, url@) {
            Ok(m) => match remote_type_of(url@, m) {
                Ok(t) => r matches Ok(remote) && remote.name@ == name@ && remote.url@ == url@
                    && remote.remote_type == t,
                Err(e) => r matches Err(w) && w@ == path@ + ": Could not handle URL "@ + url@
                    + ". Reason: "@ + remote_error_message(e),
            },
            Err(message) => r matches Err(w) && w@ == path@ + ": Could not handle URL "@ + url@
                + ". Reason: "@ + "invalid regex: "@ + message,
        },
{
    match detect_remote_type(&url) {
        Ok(remote_type) => Ok(repo::Remote { name, url, remote_type }),
        Err(e) => {
            let mut m = str_concat3(path, ": Could not handle URL ", url.as_str());
            m.append(". Reason: ");
            m.append(e.remote_type_message().as_str());
            Err(Warning(m))
        },
    }
}

/// The warning about a repository that is the file system root.
pub open spec fn root_name_warning() -> Seq<char> {
    "Getting name of the search root failed. Do you have a git repository in \"/\"?"@
}

/// The namespace and name of the repository at `path`, found by a search
/// below `root`: the search root itself is named by its last component and
/// has no namespace; any other repository is named by its path below the
/// root, and its namespace is the parent of that path, unless that is
/// empty. A search root without a parent gets a warning instead.
pub open spec fn spec_repo_naming(path: Seq<char>, root: Seq<char>) -> Option<(Option<Seq<char>>, Seq<char>)> {
    if spec_path_eq(path, root) {
        match spec_path_parent(root) {
            Some(parent) => Some((None, spec_path_strip_prefix(path, parent))),
            None => None,
        }
    } else {
        let name = spec_path_strip_prefix(path, root);
        match spec_path_parent(name) {
            Some(namespace) => Some(
                (if spec_path_eq(namespace, Seq::empty()) { None } else { Some(namespace) }, name),
            ),
            None => None,
        }
    }
}

/// The paths a search gives are below the search root, and each but the
/// root itself has a parent below the root.
pub open spec fn naming_possible(path: Seq<char>, root: Seq<char>) -> bool {
    if spec_path_eq(path, root) {
        match spec_path_parent(root) {
            Some(parent) => spec_path_starts_with(path, parent),
            None => true,
        }
    } else {
        spec_path_starts_with(path, root) && spec_path_parent(spec_path_strip_prefix(path, root)) is Some
    }
}

/// The namespace and name of a repository found at `path` by a search
/// below `root`; see `spec_repo_naming`.
pub fn repo_naming(path: &str, root: &str) -> (r: Result<(Option<ProjectNamespace>, ProjectName), Warning>)
    requires
        naming_possible(path@, root@),
    ensures
        match spec_repo_naming(path@, root@) {
            Some((namespace, name)) => r matches Ok((ns, n)) && n@ == name && match (ns, namespace) {
                (Some(a), Some(b)) => a@ == b,
                (None, None) => true,
                _ => false,
            },
            None => r matches Err(w) && w@ == root_name_warning(),
        },
{
    proof {
        reveal_strlit("");
        assert(""@ =~= Seq::<char>::empty());
    }
    if path_eq(path, root) {
        match path_parent(root) {
            Some(parent) => match path_strip_prefix(path, parent.as_str()) {
                Ok(name) => Ok((None, ProjectName::new(name))),
                Err(_) => Err(Warning(String::new())),
            },
            None => Err(
                Warning("Getting name of the search root failed. Do you have a git repository in \"/\"?".to_owned()),
            ),
        }
    } else {
        match path_strip_prefix(path, root) {
            Ok(name) => match path_parent(name.as_str()) {
                Some(namespace) => {
                    let namespace = if path_eq(namespace.as_str(), "") {
                        None
                    } else {
                        Some(ProjectNamespace::new(namespace))
                    };
                    Ok((namespace, ProjectName::new(name)))
                },
                None => Err(Warning(String::new())),
            },
            Err(_) => Err(Warning(String::new())),
        }
    }
}

/// The namespace and name of a repository found at `path` by a search
/// below `root`, or `None` for a path that a search cannot give: one
/// outside the root, or a path below the root without a parent.
pub fn name_found_repo(path: &str, root: &str) -> (r: Option<Result<(Option<ProjectNamespace>, ProjectName), Warning>>)
    ensures
        naming_possible(path@, root@) ==> (r matches Some(res) && match spec_repo_naming(path@, root@) {
            Some((namespace, name)) => res matches Ok((ns, n)) && n@ == name && match (ns, namespace) {
                (Some(a), Some(b)) => a@ == b,
                (None, None) => true,
                _ => false,
            },
            None => res matches Err(w) && w@ == root_name_warning(),
        }),
        !naming_possible(path@, root@) ==> r is None,
{
    let possible = if path_eq(path, root) {
        match path_parent(root) {
            Some(parent) => path_starts_with(path, parent.as_str()),
            None => true,
        }
    } else {
        path_starts_with(path, root) && match path_strip_prefix(path, root) {
            Ok(name) => path_parent(name.as_str()).is_some(),
            Err(_) => false,
        }
    };
    if possible {
        Some(repo_naming(path, root))
    } else {
        None
    }
}

/// What a search learned of one path it found.
pub enum PathProbe {
    /// The exclusion pattern matches the path; it was not opened.
    Excluded,
    /// The repository could not be opened.
    OpenFailed { worktree_setup: bool, message: String },
    /// The repository's remotes could not be listed.
    RemotesFailed { message: String },
    /// The repository was opened: its remotes, and the warnings about the
    /// remotes that could not be handled.
    Opened { worktree_setup: bool, remotes: Vec<repo::Remote>, remote_warnings: Vec<Warning> },
}

/// The views of a list of warnings.
pub open spec fn warning_views(warnings: Seq<Warning>) -> Seq<Seq<char>> {
    warnings.map_values(|w: Warning| w@)
}

/// One step of a search below `root`: what the probe of `path` adds to
/// the repositories and warnings found so far, and whether the path is
/// the search root itself. An excluded path, or one whose repository or
/// remotes could not be read, adds a warning and no repository; an opened
/// repository adds its remote warnings, and then either the repository,
/// named by its place below the root, or the warning about a root that
/// cannot be named. Every path but an excluded one that is the search
/// root marks the search as having a repository in the root.
pub fn record_found_path(
    repos: &mut Vec<repo::Repo>,
    warnings: &mut Vec<Warning>,
    repo_in_root: &mut bool,
    path: &str,
    root: &str,
    probe: PathProbe,
)
    requires
        probe is Opened ==> naming_possible(path@, root@),
    ensures
        *final(repo_in_root) == (*old(repo_in_root) || (!(probe is Excluded) && spec_path_eq(path@, root@))),
        match probe {
            PathProbe::Excluded => final(repos)@ == old(repos)@
                && warning_views(final(warnings)@) == warning_views(old(warnings)@).push("[skipped] "@ + path@),
            PathProbe::OpenFailed { worktree_setup, message } => final(repos)@ == old(repos)@
                && warning_views(final(warnings)@) == warning_views(old(warnings)@).push(
                    "Error opening repo "@ + path@ + (if worktree_setup { " as worktree"@ } else { Seq::empty() })
                        + ": "@ + message@,
                ),
            PathProbe::RemotesFailed { message } => final(repos)@ == old(repos)@
                && warning_views(final(warnings)@) == warning_views(old(warnings)@).push(
                    path@ + ": Error getting remotes: "@ + message@,
                ),
            PathProbe::Opened { worktree_setup, remotes, remote_warnings } => match spec_repo_naming(path@, root@) {
                Some((namespace, name)) => warning_views(final(warnings)@) == warning_views(old(warnings)@)
                    + warning_views(remote_warnings@)
                    && final(repos)@.len() == old(repos)@.len() + 1
                    && final(repos)@.drop_last() == old(repos)@
                    && final(repos)@.last().name@ == name
                    && final(repos)@.last().namespace_view() == namespace
                    && final(repos)@.last().worktree_setup == worktree_setup
                    && final(repos)@.last().remotes == remotes,
                None => final(repos)@ == old(repos)@
                    && warning_views(final(warnings)@) == (warning_views(old(warnings)@)
                        + warning_views(remote_warnings@)).push(root_name_warning()),
            },
        },
{
    let excluded = match probe {
        PathProbe::Excluded => true,
        _ => false,
    };
    if !excluded && path_eq(path, root) {
        *repo_in_root = true;
    }
    match probe {
        PathProbe::Excluded => {
            let ghost before = warnings@;
            warnings.push(skipped_warning(path));
            assert(warning_views(warnings@) =~= warning_views(before).push("[skipped] "@ + path@));
        },
        PathProbe::OpenFailed { worktree_setup, message } => {
            let ghost before = warnings@;
            let w = open_error_warning(path, worktree_setup, message.as_str());
            let ghost wv = w@;
            warnings.push(w);
            assert(warning_views(warnings@) =~= warning_views(before).push(wv));
        },
        PathProbe::RemotesFailed { message } => {
            let ghost before = warnings@;
            warnings.push(remotes_error_warning(path, message.as_str()));
            assert(warning_views(warnings@) =~= warning_views(before).push(path@ + ": Error getting remotes: "@ + message@));
        },
        PathProbe::Opened { worktree_setup, remotes, remote_warnings } => {
            let ghost before = warnings@;
            let ghost added = remote_warnings@;
            let mut remote_warnings = remote_warnings;
            warnings.append(&mut remote_warnings);
            assert(warning_views(warnings@) =~= warning_views(before) + warning_views(added));
            match repo_naming(path, root) {
                Ok((namespace, name)) => {
                    repos.push(repo::Repo { name, namespace, worktree_setup, remotes });
                },
                Err(w) => {
                    let ghost mid = warnings@;
                    let ghost wv = w@;
                    warnings.push(w);
                    assert(warning_views(warnings@) =~= warning_views(mid).push(wv));
                },
            }
        },
    }
}

/// What a search found: with a repository at the search root, that one
/// repository, which must be the only one; the list otherwise.
pub fn find_result(repos: Vec<repo::Repo>, repo_in_root: bool, warnings: Vec<Warning>) -> (r: FindResult)
    requires
        repo_in_root ==> repos.len() == 1,
    ensures
        r.warnings == warnings,
        repo_in_root ==> r.repos == Repos::InSearchRoot(repos[0]),
        !repo_in_root ==> r.repos == Repos::List(repos),
{
    let found = if repo_in_root {
        let mut repos = repos;
        Repos::InSearchRoot(repos.remove(0))
    } else {
        Repos::List(repos)
    };
    FindResult { repos: found, warnings }
}

/// The tree of the repositories a search below `path` found: the
/// repository at the search root makes a tree at the root's parent, whose
/// lack is an error; otherwise the tree is rooted at `path`.
pub fn tree_of_found(path: &str, repos: Repos) -> (r: Result<tree::Tree, Error>)
    ensures
        match repos {
            Repos::InSearchRoot(found) => match spec_path_parent(path@) {
                Some(parent) => r matches Ok(t) && t.root@ == parent && t.repos@ == seq![found],
                None => r matches Err(Error::CannotDetectRootDirectory),
            },
            Repos::List(found) => r matches Ok(t) && t.root@ == path@ && t.repos@ == found@,
        },
{
    match repos {
        Repos::InSearchRoot(found) => match path_parent(path) {
            Some(parent) => {
                let mut rs: Vec<repo::Repo> = Vec::new();
                rs.push(found);
                Ok(tree::Tree { root: tree::Root::new(parent), repos: rs })
            },
            None => Err(Error::CannotDetectRootDirectory),
        },
        Repos::List(found) => Ok(tree::Tree { root: tree::Root::new(path.to_owned()), repos: found }),
    }
}

} // verus!
