//! A `Tree` is a collection of repositories under a shared root directory.
//! This module decides how a configured repository is brought in line with
//! what is on disk, which remotes change, and which repositories found on
//! disk are not managed by any tree.

use vstd::prelude::*;

use crate::path::{path_eq, path_join, spec_path_eq, spec_path_join};
use crate::repo::{self, full_name, RemoteName, RemoteUrl, WorktreeValidationError};
use crate::text::str_eq;
use crate::{config, path};

verus! {

broadcast use repo::remote::RemoteName::lemma_spec_new_view, repo::remote::RemoteUrl::lemma_spec_new_view;

/// Errors of syncing trees.
#[derive(Debug)]
pub enum Error {
    Config(config::Error),
    Repo(repo::Error),
    Worktree(repo::worktree::Error),
    NotFound { path: String },
    Open { path: String, kind: String },
    Io { message: String },
    DirectoryAccess { message: String },
    WorktreeExpected,
    WorktreeNotExpected,
    InitFailed { message: String },
    CloneFailed { message: String },
    TreesFromConfig { message: String },
    Path(path::Error),
    WorktreeValidation(WorktreeValidationError),
}

/// The root directory of a tree.
#[derive(Debug)]
pub struct Root(String);

impl View for Root {
    type V = Seq<char>;

    closed spec fn view(&self) -> Seq<char> {
        self.0@
    }
}

impl Root {
    pub fn new(s: String) -> (r: Self)
        ensures
            r@ == s@,
    {
        Self(s)
    }

    pub fn as_path(&self) -> (r: &str)
        ensures
            r@ == self@,
    {
        self.0.as_str()
    }

    pub fn into_path_buf(self) -> (r: String)
        ensures
            r@ == self@,
    {
        self.0
    }

    pub fn from_config(other: config::Root) -> (r: Self)
        ensures
            r@ == other@,
    {
        Self::new(other.into_path_buf())
    }

    pub fn into_config(self) -> (r: config::Root)
        ensures
            r@ == self@,
    {
        config::Root::new(self.0)
    }
}

/// A tree: a root directory and the repositories below it.
pub struct Tree {
    pub root: Root,
    pub repos: Vec<repo::Repo>,
}

impl Tree {
    /// The tree that a configured tree describes; a tree without
    /// repositories has none.
    pub fn from_config(other: config::Tree) -> (r: Self)
        ensures
            r.root@ == other.root@,
            match other.repos {
                Some(rs) => r.repos.len() == rs.len() && forall|i: int|
                    0 <= i < rs.len() ==> {
                        &&& (#[trigger] r.repos[i]).namespace_view() == repo::split_configured_name(
                            rs[i].name@,
                        ).0
                        &&& r.repos[i].name@ == repo::split_configured_name(rs[i].name@).1
                        &&& r.repos[i].worktree_setup == rs[i].worktree_setup
                    },
                None => r.repos.len() == 0,
            },
    {
        let config::Tree { root, repos } = other;
        Self {
            root: Root::from_config(root),
            repos: match repos {
                Some(repos) => repo::repos_from_config(repos),
                None => Vec::new(),
            },
        }
    }
}

/// The path of a repository found on disk.
#[derive(PartialEq, Eq, Debug)]
pub struct RepoPath(String);

impl View for RepoPath {
    type V = Seq<char>;

    closed spec fn view(&self) -> Seq<char> {
        self.0@
    }
}

impl RepoPath {
    pub fn new(path: String) -> (r: Self)
        ensures
            r@ == path@,
    {
        Self(path)
    }

    pub fn as_path(&self) -> (r: &str)
        ensures
            r@ == self@,
    {
        self.0.as_str()
    }
}

/// Whether a whole operation succeeded.
#[derive(PartialEq, Eq, Copy, Clone, Debug, Structural)]
pub enum OperationResult {
    Success,
    Failure,
}

impl OperationResult {
    pub fn is_success(self) -> (r: bool)
        ensures
            r == (self == OperationResult::Success),
    {
        match self {
            OperationResult::Success => true,
            OperationResult::Failure => false,
        }
    }

    pub fn is_failure(self) -> (r: bool)
        ensures
            r == (self == OperationResult::Failure),
    {
        !self.is_success()
    }

    /// `Failure` when something failed, `Success` otherwise.
    pub fn from_failures(failures: bool) -> (r: Self)
        ensures
            r.is_failure_spec() == failures,
    {
        if failures {
            OperationResult::Failure
        } else {
            OperationResult::Success
        }
    }

    pub open spec fn is_failure_spec(self) -> bool {
        self == OperationResult::Failure
    }
}

/// What syncing a tree reports while it works.
pub enum SyncTreeMessage {
    Cloning((String, RemoteUrl)),
    Cloned(repo::ProjectName),
    Init(repo::ProjectName),
    Created(repo::ProjectName),
    SyncDone(repo::ProjectName),
    SkippingWorktreeInit(repo::ProjectName),
    UpdatingRemote((repo::ProjectName, RemoteName, RemoteUrl)),
    CreateRemote((repo::ProjectName, RemoteName, RemoteUrl)),
    DeleteRemote((repo::ProjectName, RemoteName)),
}

/// The path of a repository of a tree: its full name below the root.
pub open spec fn spec_repo_path(root: Seq<char>, r: repo::Repo) -> Seq<char> {
    spec_path_join(root, full_name(r.namespace_view(), r.name@))
}

/// The path of a repository of a tree: its full name below the root.
pub fn repo_path(root: &str, r: &repo::Repo) -> (p: String)
    ensures
        p@ == spec_repo_path(root@, *r),
{
    let name = r.fullname();
    path_join(root, name.as_str())
}

/// Some repository of `managed` lies at `path` below `root`.
pub open spec fn is_managed(root: Seq<char>, managed: Seq<repo::Repo>, path: Seq<char>) -> bool {
    exists|i: int| 0 <= i < managed.len() && spec_path_eq(spec_repo_path(root, #[trigger] managed[i]), path)
}

/// The paths of `found` that no repository of `managed` lies at, in order.
pub open spec fn unmanaged_paths(root: Seq<char>, managed: Seq<repo::Repo>, found: Seq<Seq<char>>) -> Seq<Seq<char>>
    decreases found.len(),
{
    if found.len() == 0 {
        Seq::empty()
    } else {
        let before = unmanaged_paths(root, managed, found.drop_last());
        if is_managed(root, managed, found.last()) {
            before
        } else {
            before.push(found.last())
        }
    }
}

/// The views of a list of repository paths.
pub open spec fn repo_path_views(paths: Seq<RepoPath>) -> Seq<Seq<char>> {
    paths.map_values(|p: RepoPath| p@)
}

/// Whether some repository of `managed` lies at `path` below `root`.
fn managed_at(root: &str, managed: &Vec<repo::Repo>, path: &str) -> (r: bool)
    ensures
        r == is_managed(root@, managed@, path@),
        !r ==> forall|j: int| 0 <= j < managed.len() ==> spec_repo_path(root@, #[trigger] managed@[j]) != path@,
{
    let mut i: usize = 0;
    while i < managed.len()
        invariant
            i <= managed.len(),
            forall|j: int| 0 <= j < i ==> !spec_path_eq(spec_repo_path(root@, #[trigger] managed@[j]), path@),
            forall|j: int| 0 <= j < i ==> spec_repo_path(root@, #[trigger] managed@[j]) != path@,
        decreases managed.len() - i,
    {
        let p = repo_path(root, &managed[i]);
        if path_eq(p.as_str(), path) {
            return true;
        }
        i = i + 1;
    }
    false
}

/// The repositories found below `root` that no repository of the tree lies
/// at, in the order they were found. No path it gives is the text of the
/// path of a repository of the tree.
pub fn find_unmanaged_repos(root: &str, managed: &Vec<repo::Repo>, found: &Vec<String>) -> (r: Vec<RepoPath>)
    ensures
        repo_path_views(r@) == unmanaged_paths(root@, managed@, found@.map_values(|s: String| s@)),
        forall|i: int, j: int| 0 <= i < r.len() && 0 <= j < managed.len() ==> (#[trigger] r@[i])@
            != spec_repo_path(root@, #[trigger] managed@[j]),
{
    let ghost views = found@.map_values(|s: String| s@);
    let mut r: Vec<RepoPath> = Vec::new();
    let mut i: usize = 0;
    while i < found.len()
        invariant
            i <= found.len(),
            views == found@.map_values(|s: String| s@),
            repo_path_views(r@) == unmanaged_paths(root@, managed@, views.subrange(0, i as int)),
            forall|a: int, j: int| 0 <= a < r.len() && 0 <= j < managed.len() ==> (#[trigger] r@[a])@
                != spec_repo_path(root@, #[trigger] managed@[j]),
        decreases found.len() - i,
    {
        let ghost prefix = views.subrange(0, i as int);
        assert(views.subrange(0, i + 1).drop_last() =~= prefix);
        assert(views.subrange(0, i + 1).last() == found[i as int]@);
        if !managed_at(root, managed, found[i].as_str()) {
            let ghost before = r@;
            r.push(RepoPath(found[i].clone()));
            assert(repo_path_views(r@) =~= repo_path_views(before).push(found[i as int]@));
        }
        i = i + 1;
    }
    assert(views.subrange(0, found.len() as int) =~= views);
    r
}

/// `path` equals, as a path, some path of `managed`.
pub open spec fn is_among(managed: Seq<Seq<char>>, path: Seq<char>) -> bool {
    exists|i: int| 0 <= i < managed.len() && spec_path_eq(path, #[trigger] managed[i])
}

/// The paths of `paths` that are not among `managed`, in order.
pub open spec fn paths_not_among(paths: Seq<Seq<char>>, managed: Seq<Seq<char>>) -> Seq<Seq<char>>
    decreases paths.len(),
{
    if paths.len() == 0 {
        Seq::empty()
    } else {
        let before = paths_not_among(paths.drop_last(), managed);
        if is_among(managed, paths.last()) {
            before
        } else {
            before.push(paths.last())
        }
    }
}

/// Whether `path` equals, as a path, some path of `managed`.
fn path_among(managed: &Vec<RepoPath>, path: &str) -> (r: bool)
    ensures
        r == is_among(repo_path_views(managed@), path@),
        !r ==> forall|t: int| 0 <= t < managed.len() ==> (#[trigger] managed@[t])@ != path@,
{
    let ghost views = repo_path_views(managed@);
    let mut j: usize = 0;
    while j < managed.len()
        invariant
            j <= managed.len(),
            views == repo_path_views(managed@),
            forall|t: int| 0 <= t < j ==> !spec_path_eq(path@, #[trigger] views[t]),
            forall|t: int| 0 <= t < j ==> (#[trigger] managed@[t])@ != path@,
        decreases managed.len() - j,
    {
        if path_eq(path, managed[j].as_path()) {
            assert(spec_path_eq(path@, views[j as int]));
            return true;
        }
        j = j + 1;
    }
    false
}

/// Drops from `unmanaged` every path that is managed by some tree: trees
/// may be nested or share a root, so a repository that one tree manages can
/// look unmanaged to another. No path that stays has the text of a
/// managed path.
pub fn drop_managed(unmanaged: Vec<RepoPath>, managed: &Vec<RepoPath>) -> (r: Vec<RepoPath>)
    ensures
        repo_path_views(r@) == paths_not_among(repo_path_views(unmanaged@), repo_path_views(managed@)),
        forall|i: int, j: int| 0 <= i < r.len() && 0 <= j < managed.len() ==> (#[trigger] r@[i])@
            != (#[trigger] managed@[j])@,
{
    let ghost views = repo_path_views(unmanaged@);
    let ghost managed_views = repo_path_views(managed@);
    let mut r: Vec<RepoPath> = Vec::new();
    let mut rest = unmanaged;
    let ghost all = rest@;
    let n = rest.len();
    let mut k: usize = 0;
    while rest.len() > 0
        invariant
            n == all.len(),
            k + rest.len() == n,
            views == repo_path_views(all),
            managed_views == repo_path_views(managed@),
            rest@ == all.subrange(k as int, n as int),
            repo_path_views(r@) == paths_not_among(views.subrange(0, k as int), managed_views),
            forall|a: int, j: int| 0 <= a < r.len() && 0 <= j < managed.len() ==> (#[trigger] r@[a])@
                != (#[trigger] managed@[j])@,
        decreases rest.len(),
    {
        let p = rest.remove(0);
        proof {
            assert(p == all[k as int]);
            assert(views.subrange(0, k + 1).drop_last() =~= views.subrange(0, k as int));
            assert(views.subrange(0, k + 1).last() == p@);
        }
        let found = path_among(managed, p.as_path());
        if !found {
            assert(!is_among(managed_views, p@));
            let ghost before = r@;
            r.push(p);
            assert(repo_path_views(r@) =~= repo_path_views(before).push(p@));
        }
        k = k + 1;
        proof {
            assert(rest@ =~= all.subrange(k as int, n as int));
        }
    }
    assert(views.subrange(0, n as int) =~= views);
    r
}

/// A tree as a sync leaves it: its expanded root, its repositories, and
/// the paths of the repositories found below its root.
pub struct SyncedTree {
    pub root: String,
    pub repos: Vec<repo::Repo>,
    pub found: Vec<String>,
}

/// The paths of the repositories of a tree.
pub open spec fn tree_managed_paths(t: SyncedTree) -> Seq<Seq<char>> {
    t.repos@.map_values(|r: repo::Repo| spec_repo_path(t.root@, r))
}

/// The paths found below a tree's root that none of its repositories lies at.
pub open spec fn tree_unmanaged_paths(t: SyncedTree) -> Seq<Seq<char>> {
    unmanaged_paths(t.root@, t.repos@, t.found@.map_values(|s: String| s@))
}

/// The paths of the repositories of all trees, tree by tree.
pub open spec fn all_managed_paths(trees: Seq<SyncedTree>) -> Seq<Seq<char>>
    decreases trees.len(),
{
    if trees.len() == 0 {
        Seq::empty()
    } else {
        all_managed_paths(trees.drop_last()) + tree_managed_paths(trees.last())
    }
}

/// The paths that each tree finds unmanaged below its root, tree by tree.
pub open spec fn all_unmanaged_paths(trees: Seq<SyncedTree>) -> Seq<Seq<char>>
    decreases trees.len(),
{
    if trees.len() == 0 {
        Seq::empty()
    } else {
        all_unmanaged_paths(trees.drop_last()) + tree_unmanaged_paths(trees.last())
    }
}

/// The path of each repository of each tree is among the managed paths.
proof fn lemma_managed_path_listed(trees: Seq<SyncedTree>, t: int, j: int)
    requires
        0 <= t < trees.len(),
        0 <= j < trees[t].repos.len(),
    ensures
        all_managed_paths(trees).contains(spec_repo_path(trees[t].root@, trees[t].repos@[j])),
    decreases trees.len(),
{
    let before = all_managed_paths(trees.drop_last());
    let all = all_managed_paths(trees);
    if t == trees.len() - 1 {
        assert(all[before.len() + j] == tree_managed_paths(trees.last())[j]);
    } else {
        lemma_managed_path_listed(trees.drop_last(), t, j);
        assert(trees.drop_last()[t] == trees[t]);
        let k = choose|k: int| 0 <= k < before.len() && before[k] == spec_repo_path(trees[t].root@, trees[t].repos@[j]);
        assert(all[k] == before[k]);
    }
}

/// The views of two lists of paths, one after the other.
proof fn lemma_views_append(a: Seq<RepoPath>, b: Seq<RepoPath>)
    ensures
        repo_path_views(a + b) == repo_path_views(a) + repo_path_views(b),
{
    assert(repo_path_views(a + b) =~= repo_path_views(a) + repo_path_views(b));
}

/// The repositories that no tree manages, after all trees were synced:
/// each tree's unmanaged paths, tree by tree, without those that some
/// tree manages, since trees may be nested or share a root. No path it
/// gives has the text of the path of any repository of any tree.
pub fn unmanaged_repos(trees: &Vec<SyncedTree>) -> (r: Vec<RepoPath>)
    ensures
        repo_path_views(r@) == paths_not_among(all_unmanaged_paths(trees@), all_managed_paths(trees@)),
        forall|i: int, t: int, j: int|
            0 <= i < r.len() && 0 <= t < trees.len() && 0 <= j < trees@[t].repos.len() ==> (#[trigger] r@[i])@
                != spec_repo_path(trees@[t].root@, #[trigger] trees@[t].repos@[j]),
{
    let mut managed: Vec<RepoPath> = Vec::new();
    let mut unmanaged: Vec<RepoPath> = Vec::new();
    let mut i: usize = 0;
    while i < trees.len()
        invariant
            i <= trees.len(),
            repo_path_views(managed@) == all_managed_paths(trees@.subrange(0, i as int)),
            repo_path_views(unmanaged@) == all_unmanaged_paths(trees@.subrange(0, i as int)),
        decreases trees.len() - i,
    {
        let t = &trees[i];
        let ghost before = repo_path_views(managed@);
        let mut j: usize = 0;
        while j < t.repos.len()
            invariant
                i < trees.len(),
                *t == trees@[i as int],
                j <= t.repos.len(),
                repo_path_views(managed@) == before + tree_managed_paths(*t).subrange(0, j as int),
            decreases t.repos.len() - j,
        {
            let ghost old_managed = managed@;
            managed.push(RepoPath::new(repo_path(t.root.as_str(), &t.repos[j])));
            proof {
                assert(repo_path_views(managed@) =~= repo_path_views(old_managed).push(
                    spec_repo_path(t.root@, t.repos@[j as int]),
                ));
                assert(tree_managed_paths(*t).subrange(0, j + 1) =~= tree_managed_paths(*t).subrange(0, j as int).push(
                    spec_repo_path(t.root@, t.repos@[j as int]),
                ));
            }
            j = j + 1;
        }
        let ghost old_unmanaged = unmanaged@;
        let mut of_tree = find_unmanaged_repos(t.root.as_str(), &t.repos, &t.found);
        let ghost tree_part = of_tree@;
        unmanaged.append(&mut of_tree);
        proof {
            lemma_views_append(old_unmanaged, tree_part);
            assert(tree_managed_paths(*t).subrange(0, j as int) =~= tree_managed_paths(*t));
            let next = trees@.subrange(0, i + 1);
            assert(next.drop_last() =~= trees@.subrange(0, i as int));
            assert(next.last() == trees@[i as int]);
        }
        i = i + 1;
    }
    assert(trees@.subrange(0, trees.len() as int) =~= trees@);
    let r = drop_managed(unmanaged, &managed);
    proof {
        assert forall|a: int, t: int, j: int|
            0 <= a < r.len() && 0 <= t < trees.len() && 0 <= j < trees@[t].repos.len() implies (#[trigger] r@[a])@
                != spec_repo_path(trees@[t].root@, #[trigger] trees@[t].repos@[j]) by {
            lemma_managed_path_listed(trees@, t, j);
            let x = spec_repo_path(trees@[t].root@, trees@[t].repos@[j]);
            let k = choose|k: int| 0 <= k < all_managed_paths(trees@).len() && all_managed_paths(trees@)[k] == x;
            assert(repo_path_views(managed@)[k] == managed@[k]@);
            assert(r@[a]@ != managed@[k]@);
        }
    }
    r
}

/// Where the git data of a repository lies: in its directory, or in the
/// main worktree directory inside it for a worktree setup.
pub fn actual_git_directory(path: &str, worktree_setup: bool) -> (r: String)
    ensures
        worktree_setup ==> r@ == spec_path_join(path@, repo::GIT_MAIN_WORKTREE_DIRECTORY@),
        !worktree_setup ==> r@ == path@,
{
    if worktree_setup {
        path_join(path, repo::GIT_MAIN_WORKTREE_DIRECTORY)
    } else {
        path.to_owned()
    }
}

/// How syncing a repository begins.
#[derive(Debug, PartialEq, Eq, Clone, Copy, Structural)]
pub enum SyncStart {
    /// The directory exists with content; it is used as it is.
    Existing,
    /// The repository is cloned from its first remote.
    Clone,
    /// A new repository is initialised.
    Init,
}

/// How syncing a repository begins: a directory with content is used as it
/// is, unless a worktree setup is configured and its git data is missing;
/// otherwise the repository is cloned from its first remote, or initialised
/// when it has none.
pub fn sync_start(directory_has_content: bool, worktree_setup: bool, git_directory_exists: bool, has_remotes: bool) -> (r: Result<SyncStart, Error>)
    ensures
        directory_has_content && worktree_setup && !git_directory_exists ==> r matches Err(Error::WorktreeExpected),
        directory_has_content && !(worktree_setup && !git_directory_exists) ==> r == Ok::<SyncStart, Error>(SyncStart::Existing),
        !directory_has_content && has_remotes ==> r == Ok::<SyncStart, Error>(SyncStart::Clone),
        !directory_has_content && !has_remotes ==> r == Ok::<SyncStart, Error>(SyncStart::Init),
{
    if directory_has_content {
        if worktree_setup && !git_directory_exists {
            return Err(Error::WorktreeExpected);
        }
        Ok(SyncStart::Existing)
    } else if has_remotes {
        Ok(SyncStart::Clone)
    } else {
        Ok(SyncStart::Init)
    }
}

/// The error of a repository that could not be opened: a repository
/// configured without a worktree setup that opens as one is reported as
/// such; otherwise the error of opening it stands.
pub fn open_failure(worktree_setup: bool, opens_as_worktree: bool, error: repo::Error) -> (r: Error)
    ensures
        !worktree_setup && opens_as_worktree ==> r matches Error::WorktreeNotExpected,
        !(!worktree_setup && opens_as_worktree) ==> r == Error::Repo(error),
{
    if !worktree_setup && opens_as_worktree {
        Error::WorktreeNotExpected
    } else {
        Error::Repo(error)
    }
}

/// Whether the default branch is checked out as a first worktree: only for
/// a worktree setup that was just cloned or initialised, and when asked to.
pub fn initialises_worktree(newly_created: bool, worktree_setup: bool, init_worktree: bool) -> (r: bool)
    ensures
        r == (newly_created && worktree_setup && init_worktree),
{
    newly_created && worktree_setup && init_worktree
}

/// What a configured remote needs.
pub enum RemoteAction {
    /// The remote exists with another URL.
    Update { name: RemoteName, url: RemoteUrl },
    /// The remote does not exist.
    Create { name: RemoteName, url: RemoteUrl },
}

/// What a configured remote needs, given the URL of the remote of that name
/// in the repository, if there is one: nothing when the URLs agree.
pub fn configured_remote_action(configured: &repo::Remote, current_url: Option<&RemoteUrl>) -> (r: Option<RemoteAction>)
    ensures
        match current_url {
            Some(u) => if u@ == configured.url@ {
                r is None
            } else {
                r matches Some(RemoteAction::Update { name, url }) && name@ == configured.name@
                    && url@ == configured.url@
            },
            None => r matches Some(RemoteAction::Create { name, url }) && name@ == configured.name@
                && url@ == configured.url@,
        },
{
    match current_url {
        Some(u) => {
            if str_eq(u.as_str(), configured.url.as_str()) {
                None
            } else {
                Some(RemoteAction::Update { name: configured.name.clone(), url: configured.url.clone() })
            }
        },
        None => Some(RemoteAction::Create { name: configured.name.clone(), url: configured.url.clone() }),
    }
}

/// Some remote of `configured` is called `name`.
pub open spec fn is_configured(configured: Seq<repo::Remote>, name: Seq<char>) -> bool {
    exists|i: int| 0 <= i < configured.len() && (#[trigger] configured[i]).name@ == name
}

/// The names of `current` that no configured remote has, in order.
pub open spec fn unconfigured(current: Seq<Seq<char>>, configured: Seq<repo::Remote>) -> Seq<Seq<char>>
    decreases current.len(),
{
    if current.len() == 0 {
        Seq::empty()
    } else {
        let before = unconfigured(current.drop_last(), configured);
        if is_configured(configured, current.last()) {
            before
        } else {
            before.push(current.last())
        }
    }
}

/// The views of a list of remote names.
pub open spec fn remote_name_views(names: Seq<RemoteName>) -> Seq<Seq<char>> {
    names.map_values(|n: RemoteName| n@)
}

/// Whether some remote of `configured` is called `name`.
fn configured_name(configured: &Vec<repo::Remote>, name: &str) -> (r: bool)
    ensures
        r == is_configured(configured@, name@),
{
    let mut j: usize = 0;
    while j < configured.len()
        invariant
            j <= configured.len(),
            forall|t: int| 0 <= t < j ==> (#[trigger] configured@[t]).name@ != name@,
        decreases configured.len() - j,
    {
        if str_eq(configured[j].name.as_str(), name) {
            assert(configured@[j as int].name@ == name@);
            return true;
        }
        j = j + 1;
    }
    false
}

/// The remotes of the repository that are not configured, in order: they
/// are deleted.
pub fn remotes_to_delete(current: &Vec<RemoteName>, configured: &Vec<repo::Remote>) -> (r: Vec<RemoteName>)
    ensures
        remote_name_views(r@) == unconfigured(remote_name_views(current@), configured@),
        forall|i: int, j: int|
            0 <= i < current.len() && 0 <= j < configured.len() && (#[trigger] current@[i])@
                == (#[trigger] configured@[j]).name@ ==> !remote_name_views(r@).contains(current@[i]@),
{
    let ghost views = remote_name_views(current@);
    let mut r: Vec<RemoteName> = Vec::new();
    let mut i: usize = 0;
    while i < current.len()
        invariant
            i <= current.len(),
            views == remote_name_views(current@),
            remote_name_views(r@) == unconfigured(views.subrange(0, i as int), configured@),
        decreases current.len() - i,
    {
        assert(views.subrange(0, i + 1).drop_last() =~= views.subrange(0, i as int));
        assert(views.subrange(0, i + 1).last() == current[i as int]@);
        let found = configured_name(configured, current[i].as_str());
        if !found {
            let ghost before = r@;
            r.push(current[i].clone());
            assert(remote_name_views(r@) =~= remote_name_views(before).push(current[i as int]@));
        }
        i = i + 1;
    }
    assert(views.subrange(0, current.len() as int) =~= views);
    proof {
        law_only_unconfigured_remotes_deleted(views, configured@);
        assert forall|i: int, j: int|
            0 <= i < current.len() && 0 <= j < configured.len() && (#[trigger] current@[i])@
                == (#[trigger] configured@[j]).name@ implies !remote_name_views(r@).contains(current@[i]@) by {
            assert(views[i] == current@[i]@);
        }
    }
    r
}

/// A sync deletes exactly the remotes that are not configured: no remote
/// whose name any configured remote has, at whatever position, is deleted;
/// every remote that is deleted is a current one whose name no configured
/// remote has; and every current remote whose name no configured remote
/// has is deleted.
pub proof fn law_only_unconfigured_remotes_deleted(current: Seq<Seq<char>>, configured: Seq<repo::Remote>)
    ensures
        forall|i: int, j: int|
            0 <= i < current.len() && 0 <= j < configured.len() && #[trigger] current[i]
                == (#[trigger] configured[j]).name@ ==> !unconfigured(current, configured).contains(current[i]),
        forall|k: int|
            0 <= k < unconfigured(current, configured).len() ==> current.contains(
                #[trigger] unconfigured(current, configured)[k],
            ) && forall|j: int| 0 <= j < configured.len() ==> (#[trigger] configured[j]).name@
                != unconfigured(current, configured)[k],
        forall|i: int|
            0 <= i < current.len() && (forall|j: int| 0 <= j < configured.len() ==> (#[trigger] configured[j]).name@
                != current[i]) ==> unconfigured(current, configured).contains(#[trigger] current[i]),
    decreases current.len(),
{
    let out = unconfigured(current, configured);
    if current.len() > 0 {
        let rest = current.drop_last();
        let before = unconfigured(rest, configured);
        law_only_unconfigured_remotes_deleted(rest, configured);
        let last = current.last();
        assert forall|k: int| 0 <= k < out.len() implies current.contains(#[trigger] out[k]) && forall|j: int|
            0 <= j < configured.len() ==> (#[trigger] configured[j]).name@ != out[k] by {
            if k < before.len() {
                assert(out[k] == before[k]);
                let t = choose|t: int| 0 <= t < rest.len() && rest[t] == before[k];
                assert(current[t] == before[k]);
            } else {
                assert(out[k] == last);
                assert(!is_configured(configured, last));
                assert(current[current.len() - 1] == last);
            }
        }
        assert forall|i: int, j: int|
            0 <= i < current.len() && 0 <= j < configured.len() && #[trigger] current[i]
                == (#[trigger] configured[j]).name@ implies !out.contains(current[i]) by {
            if out.contains(current[i]) {
                let k = choose|k: int| 0 <= k < out.len() && out[k] == current[i];
                assert(configured[j].name@ != out[k]);
            }
        }
        assert forall|i: int|
            0 <= i < current.len() && (forall|j: int| 0 <= j < configured.len() ==> (#[trigger] configured[j]).name@
                != current[i]) implies out.contains(#[trigger] current[i]) by {
            if i < rest.len() {
                assert(rest[i] == current[i]);
                assert(before.contains(rest[i]));
                let k = choose|k: int| 0 <= k < before.len() && before[k] == rest[i];
                if is_configured(configured, last) {
                    assert(out[k] == current[i]);
                } else {
                    assert(out[k] == before[k]);
                }
            } else {
                assert(current[i] == last);
                assert(!is_configured(configured, last));
                assert(out[before.len() as int] == last);
            }
        }
    }
}

/// Every repository reported as unmanaged was found, and no repository of
/// the tree lies at its path.
pub proof fn law_unmanaged_were_found_and_are_unmanaged(
    root: Seq<char>,
    managed: Seq<repo::Repo>,
    found: Seq<Seq<char>>,
)
    ensures
        forall|i: int|
            0 <= i < unmanaged_paths(root, managed, found).len() ==> found.contains(
                #[trigger] unmanaged_paths(root, managed, found)[i],
            ) && !is_managed(root, managed, unmanaged_paths(root, managed, found)[i]),
    decreases found.len(),
{
    if found.len() > 0 {
        law_unmanaged_were_found_and_are_unmanaged(root, managed, found.drop_last());
        let before = unmanaged_paths(root, managed, found.drop_last());
        let all = unmanaged_paths(root, managed, found);
        assert forall|i: int| 0 <= i < all.len() implies found.contains(#[trigger] all[i]) && !is_managed(
            root,
            managed,
            all[i],
        ) by {
            if i < before.len() {
                assert(all[i] == before[i]);
                let k = choose|k: int| 0 <= k < found.drop_last().len() && found.drop_last()[k] == before[i];
                assert(found[k] == before[i]);
            } else {
                assert(found[found.len() - 1] == all[i]);
            }
        }
    }
}

/// No path that any tree manages stays among the unmanaged ones, and each
/// that stays was among them.
pub proof fn law_dropped_paths_are_unmanaged(paths: Seq<Seq<char>>, managed: Seq<Seq<char>>)
    ensures
        forall|i: int|
            0 <= i < paths_not_among(paths, managed).len() ==> paths.contains(
                #[trigger] paths_not_among(paths, managed)[i],
            ) && !is_among(managed, paths_not_among(paths, managed)[i]),
    decreases paths.len(),
{
    if paths.len() > 0 {
        law_dropped_paths_are_unmanaged(paths.drop_last(), managed);
        let before = paths_not_among(paths.drop_last(), managed);
        let all = paths_not_among(paths, managed);
        assert forall|i: int| 0 <= i < all.len() implies paths.contains(#[trigger] all[i]) && !is_among(
            managed,
            all[i],
        ) by {
            if i < before.len() {
                assert(all[i] == before[i]);
                let k = choose|k: int| 0 <= k < paths.drop_last().len() && paths.drop_last()[k] == before[i];
                assert(paths[k] == before[i]);
            } else {
                assert(paths[paths.len() - 1] == all[i]);
            }
        }
    }
}

} // verus!
