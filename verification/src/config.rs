//! The configuration model: trees of repositories, provider queries and the
//! per-worktree configuration file. Parsing and printing the file formats is
//! done in `app/`, on copies of these types that carry the serde derives.

use vstd::prelude::*;

use crate::path::{self, path_join, path_starts_with, path_strip_prefix, spec_path_join,
    spec_path_starts_with, spec_path_strip_prefix};
use crate::{provider, repo, tree};

verus! {

/// A forge that repositories can be listed from.
#[derive(Debug, Clone, Copy, PartialEq, Eq, Structural)]
pub enum RemoteProvider {
    Github,
    Gitlab,
}

/// The name of the configuration file at the root of a worktree setup.
pub const WORKTREE_CONFIG_FILE_NAME: &'static str = "grm.toml";

/// The protocol of a configured remote.
#[derive(Debug, Clone, Copy, PartialEq, Eq, Structural)]
pub enum RemoteType {
    Ssh,
    Https,
    File,
}

/// The value of `worktree_setup` when a repository does not give one.
pub fn worktree_setup_default() -> (r: bool)
    ensures
        r == false,
{
    false
}

/// A whole configuration file: either explicit trees, or a provider query.
#[derive(Debug)]
pub enum Config {
    ConfigTrees(ConfigTrees),
    ConfigProvider(ConfigProvider),
}

/// Explicitly configured trees of repositories.
#[derive(Debug)]
pub struct ConfigTrees {
    pub trees: Vec<Tree>,
}

/// A forge user whose repositories are wanted.
#[derive(Clone, Debug)]
pub struct User(String);

impl View for User {
    type V = Seq<char>;

    closed spec fn view(&self) -> Seq<char> {
        self.0@
    }
}

impl User {
    pub fn new(name: String) -> (res: Self)
        ensures
            res@ == name@,
    {
        Self(name)
    }

    pub fn into_username(self) -> (res: String)
        ensures
            res@ == self@,
    {
        self.0
    }
}

/// A forge group whose repositories are wanted.
#[derive(Clone, Debug)]
pub struct Group(String);

impl View for Group {
    type V = Seq<char>;

    closed spec fn view(&self) -> Seq<char> {
        self.0@
    }
}

impl Group {
    pub fn new(name: String) -> (res: Self)
        ensures
            res@ == name@,
    {
        Self(name)
    }

    pub fn into_groupname(self) -> (res: String)
        ensures
            res@ == self@,
    {
        self.0
    }
}

/// Which repositories of a forge a provider query selects.
#[derive(Debug)]
pub struct ConfigProviderFilter {
    pub access: Option<bool>,
    pub owner: Option<bool>,
    pub users: Option<Vec<User>>,
    pub groups: Option<Vec<Group>>,
}

impl ConfigProviderFilter {
    /// The filters of a provider configuration that gives none: nothing
    /// selected.
    pub fn none_selected() -> (r: Self)
        ensures
            r.access == Some(false),
            r.owner == Some(false),
            r.users matches Some(us) && us.len() == 0,
            r.groups matches Some(gs) && gs.len() == 0,
    {
        ConfigProviderFilter {
            access: Some(false),
            owner: Some(false),
            users: Some(Vec::new()),
            groups: Some(Vec::new()),
        }
    }
}

/// The views of the users of a filter.
pub open spec fn user_views(users: Seq<User>) -> Seq<Seq<char>> {
    users.map_values(|u: User| u@)
}

/// The views of the groups of a filter.
pub open spec fn group_views(groups: Seq<Group>) -> Seq<Seq<char>> {
    groups.map_values(|g: Group| g@)
}

/// The forge users that configured users name, in order.
fn provider_users(users: Vec<User>) -> (r: Vec<provider::User>)
    ensures
        r@.map_values(|u: provider::User| u@) == user_views(users@),
{
    let mut r: Vec<provider::User> = Vec::new();
    let mut rest = users;
    let ghost all = rest@;
    let n = rest.len();
    while rest.len() > 0
        invariant
            n == all.len(),
            r.len() + rest.len() == n,
            rest@ == all.subrange(r.len() as int, n as int),
            forall|j: int| 0 <= j < r.len() ==> #[trigger] r@[j]@ == all[j]@,
        decreases rest.len(),
    {
        let u = rest.remove(0);
        proof {
            assert(u == all[r.len() as int]);
        }
        r.push(provider::User::from_config(u));
        proof {
            assert(rest@ =~= all.subrange(r.len() as int, n as int));
        }
    }
    assert(r@.map_values(|u: provider::User| u@) =~= user_views(all));
    r
}

/// The forge groups that configured groups name, in order.
fn provider_groups(groups: Vec<Group>) -> (r: Vec<provider::Group>)
    ensures
        r@.map_values(|g: provider::Group| g@) == group_views(groups@),
{
    let mut r: Vec<provider::Group> = Vec::new();
    let mut rest = groups;
    let ghost all = rest@;
    let n = rest.len();
    while rest.len() > 0
        invariant
            n == all.len(),
            r.len() + rest.len() == n,
            rest@ == all.subrange(r.len() as int, n as int),
            forall|j: int| 0 <= j < r.len() ==> #[trigger] r@[j]@ == all[j]@,
        decreases rest.len(),
    {
        let g = rest.remove(0);
        proof {
            assert(g == all[r.len() as int]);
        }
        r.push(provider::Group::from_config(g));
        proof {
            assert(rest@ =~= all.subrange(r.len() as int, n as int));
        }
    }
    assert(r@.map_values(|g: provider::Group| g@) =~= group_views(all));
    r
}

/// The forge query that the filters of a provider configuration describe:
/// missing filters select nothing, a missing list is empty and a missing
/// flag is off.
pub fn provider_filter(filters: Option<ConfigProviderFilter>) -> (r: provider::Filter)
    ensures
        match filters {
            None => r.spec_users().len() == 0 && r.spec_groups().len() == 0 && !r.spec_owner()
                && !r.spec_access(),
            Some(f) => {
                &&& r.spec_users().map_values(|u: provider::User| u@) == match f.users {
                    Some(us) => user_views(us@),
                    None => Seq::empty(),
                }
                &&& r.spec_groups().map_values(|g: provider::Group| g@) == match f.groups {
                    Some(gs) => group_views(gs@),
                    None => Seq::empty(),
                }
                &&& r.spec_owner() == (f.owner == Some(true))
                &&& r.spec_access() == (f.access == Some(true))
            },
        },
{
    let filters = match filters {
        Some(f) => f,
        None => ConfigProviderFilter::none_selected(),
    };
    let users = match filters.users {
        Some(us) => provider_users(us),
        None => Vec::new(),
    };
    let groups = match filters.groups {
        Some(gs) => provider_groups(gs),
        None => Vec::new(),
    };
    let owner = match filters.owner {
        Some(b) => b,
        None => false,
    };
    let access = match filters.access {
        Some(b) => b,
        None => false,
    };
    let r = provider::Filter::new(users, groups, owner, access);
    proof {
        assert(r.spec_users().map_values(|u: provider::User| u@) =~= users@.map_values(|u: provider::User| u@));
        assert(r.spec_groups().map_values(|g: provider::Group| g@) =~= groups@.map_values(|g: provider::Group| g@));
    }
    r
}

/// The root of the tree of a namespace: the namespace below the
/// configured root, or the configured root for projects without one.
pub fn namespace_root(root: &str, namespace: Option<&provider::ProjectNamespace>) -> (r: String)
    ensures
        match namespace {
            Some(ns) => r@ == spec_path_join(root@, ns@),
            None => r@ == root@,
        },
{
    match namespace {
        Some(ns) => path_join(root, ns.as_str()),
        None => root.to_owned(),
    }
}

/// The trees of a forge listing grouped by namespace: one tree per group,
/// rooted at the namespace below `root`, in order.
pub fn provider_trees(root: &str, groups: Vec<(Option<provider::ProjectNamespace>, Vec<repo::Repo>)>) -> (r: Vec<Tree>)
    ensures
        r.len() == groups.len(),
        forall|i: int|
            0 <= i < groups.len() ==> {
                &&& (#[trigger] r[i]).root@ == match groups[i].0 {
                    Some(ns) => spec_path_join(root@, ns@),
                    None => root@,
                }
                &&& r[i].repos matches Some(rs) && rs.len() == groups[i].1.len() && forall|k: int|
                    0 <= k < rs.len() ==> #[trigger] groups[i].1[k].describes_config(rs[k])
            },
{
    let mut r: Vec<Tree> = Vec::new();
    let mut rest = groups;
    let ghost all = rest@;
    let n = rest.len();
    while rest.len() > 0
        invariant
            n == all.len(),
            r.len() + rest.len() == n,
            rest@ == all.subrange(r.len() as int, n as int),
            forall|j: int|
                0 <= j < r.len() ==> {
                    &&& (#[trigger] r[j]).root@ == match all[j].0 {
                        Some(ns) => spec_path_join(root@, ns@),
                        None => root@,
                    }
                    &&& r[j].repos matches Some(rs) && rs.len() == all[j].1.len() && forall|k: int|
                        0 <= k < rs.len() ==> #[trigger] all[j].1[k].describes_config(rs[k])
                },
        decreases rest.len(),
    {
        let (namespace, repos) = rest.remove(0);
        proof {
            assert((namespace, repos) == all[r.len() as int]);
        }
        let tree_root = namespace_root(root, namespace.as_ref());
        r.push(Tree::from_repos(tree_root.as_str(), repos));
        proof {
            assert(rest@ =~= all.subrange(r.len() as int, n as int));
        }
    }
    r
}

/// A configuration that lists repositories from a forge.
#[derive(Debug)]
pub struct ConfigProvider {
    pub provider: RemoteProvider,
    pub token_command: String,
    pub root: String,
    pub filters: Option<ConfigProviderFilter>,
    pub force_ssh: Option<bool>,
    pub api_url: Option<String>,
    pub worktree: Option<bool>,
    pub remote_name: Option<String>,
}

/// A configured remote of a repository.
#[derive(Debug)]
pub struct Remote {
    pub name: String,
    pub url: String,
    pub remote_type: RemoteType,
}

/// A configured repository.
#[derive(Debug)]
pub struct Repo {
    pub name: String,
    pub worktree_setup: bool,
    pub remotes: Option<Vec<Remote>>,
}

impl ConfigTrees {
    pub fn to_config(self) -> (res: Config)
        ensures
            res == Config::ConfigTrees(self),
    {
        Config::ConfigTrees(self)
    }

    pub fn from_vec(vec: Vec<Tree>) -> (res: Self)
        ensures
            res.trees == vec,
    {
        Self { trees: vec }
    }

    /// The configuration form of trees that were found on disk.
    pub fn from_trees(vec: Vec<tree::Tree>) -> (res: Self)
        ensures
            res.trees.len() == vec.len(),
            forall|i: int|
                0 <= i < vec.len() ==> #[trigger] res.trees[i].describes(vec[i]),
    {
        let mut trees: Vec<Tree> = Vec::new();
        let mut rest = vec;
        let ghost original = rest@;
        let n = rest.len();
        while rest.len() > 0
            invariant
                n == original.len(),
                trees.len() + rest.len() == n,
                rest@ == original.subrange(trees.len() as int, n as int),
                forall|j: int|
                    0 <= j < trees.len() ==> #[trigger] trees[j].describes(original[j]),
            decreases rest.len(),
        {
            let t = rest.remove(0);
            proof {
                assert(t == original[trees.len() as int]);
            }
            trees.push(Tree::from_tree(t));
            proof {
                assert(rest@ =~= original.subrange(trees.len() as int, n as int));
            }
        }
        Self { trees }
    }

    pub fn trees(self) -> (res: Vec<Tree>)
        ensures
            res == self.trees,
    {
        self.trees
    }

    pub fn trees_ref(&self) -> (res: &Vec<Tree>)
        ensures
            *res == self.trees,
    {
        &self.trees
    }
}

/// Errors of configuration handling.
#[derive(Debug)]
pub enum Error {
    Auth(String),
    Provider(provider::Error),
    Path(path::Error),
    ReadConfig { message: String, path: String },
    ParseConfig { message: String, path: String },
    StripPrefix { path: String, prefix: String, message: String },
}

/// What `normalize` makes of a tree root: a root under `home` is written
/// relative to `~`.
pub open spec fn normalized_root(root: Seq<char>, home: Seq<char>) -> Seq<char> {
    if spec_path_starts_with(root, home) {
        let rest = spec_path_strip_prefix(root, home);
        let rest = if spec_path_starts_with(rest, seq!['/']) {
            spec_path_strip_prefix(rest, seq!['/'])
        } else {
            rest
        };
        spec_path_join(seq!['~'], rest)
    } else {
        root
    }
}

impl Config {
    pub fn from_trees(trees: Vec<Tree>) -> (res: Self)
        ensures
            res == Config::ConfigTrees(ConfigTrees { trees }),
    {
        Self::ConfigTrees(ConfigTrees { trees })
    }

    /// Rewrites every tree root under the home directory `home` so that it
    /// starts with `~`. A provider configuration is left as it is.
    pub fn normalize(&mut self, home: &str) -> (r: Result<(), Error>)
        ensures
            r is Ok,
            match (*old(self), *final(self)) {
                (Config::ConfigTrees(a), Config::ConfigTrees(b)) => {
                    &&& a.trees.len() == b.trees.len()
                    &&& forall|i: int|
                        0 <= i < a.trees.len() ==> {
                            &&& (#[trigger] b.trees[i]).root@ == normalized_root(
                                a.trees[i].root@,
                                home@,
                            )
                            &&& b.trees[i].repos == a.trees[i].repos
                        }
                },
                (Config::ConfigProvider(a), Config::ConfigProvider(b)) => a == b,
                _ => false,
            },
    {
        match self {
            Config::ConfigTrees(config) => {
                let ghost before = config.trees@;
                let n = config.trees.len();
                let mut i: usize = 0;
                while i < n
                    invariant
                        n == before.len(),
                        config.trees.len() == n,
                        i <= n,
                        forall|j: int|
                            0 <= j < i ==> {
                                &&& (#[trigger] config.trees[j]).root@ == normalized_root(
                                    before[j].root@,
                                    home@,
                                )
                                &&& config.trees[j].repos == before[j].repos
                            },
                        forall|j: int| i <= j < n ==> #[trigger] config.trees[j] == before[j],
                    decreases n - i,
                {
                    let new_root = normalize_root(config.trees[i].root.as_str(), home);
                    config.trees[i].root = Root::new(new_root);
                    i = i + 1;
                }
                Ok(())
            },
            Config::ConfigProvider(_) => Ok(()),
        }
    }
}

/// The root as `normalize` writes it.
fn normalize_root(root: &str, home: &str) -> (r: String)
    ensures
        r@ == normalized_root(root@, home@),
{
    proof {
        reveal_strlit("/");
        reveal_strlit("~");
    }
    if path_starts_with(root, home) {
        match path_strip_prefix(root, home) {
            Ok(rest) => {
                let rest = if path_starts_with(rest.as_str(), "/") {
                    match path_strip_prefix(rest.as_str(), "/") {
                        Ok(stripped) => stripped,
                        Err(_) => rest,
                    }
                } else {
                    rest
                };
                assert("/"@ =~= seq!['/']);
                assert("~"@ =~= seq!['~']);
                path_join("~", rest.as_str())
            },
            Err(_) => root.to_owned(),
        }
    } else {
        root.to_owned()
    }
}

/// The root directory of a tree of repositories.
#[derive(Debug)]
pub struct Root(String);

impl View for Root {
    type V = Seq<char>;

    closed spec fn view(&self) -> Seq<char> {
        self.0@
    }
}

impl Root {
    pub fn new(s: String) -> (res: Self)
        ensures
            res@ == s@,
    {
        Self(s)
    }

    pub fn path(&self) -> (res: &str)
        ensures
            res@ == self@,
    {
        self.0.as_str()
    }

    pub fn as_str(&self) -> (res: &str)
        ensures
            res@ == self@,
    {
        self.0.as_str()
    }

    /// Whether the root lies under `base`, compared component by component.
    pub fn starts_with(&self, base: &str) -> (r: bool)
        ensures
            r == spec_path_starts_with(self@, base@),
    {
        path_starts_with(self.0.as_str(), base)
    }

    /// The root relative to `prefix`.
    pub fn strip_prefix(&self, prefix: &str) -> (r: Result<Self, Error>)
        ensures
            r is Ok <==> spec_path_starts_with(self@, prefix@),
            r matches Ok(root) ==> root@ == spec_path_strip_prefix(self@, prefix@),
            r matches Err(Error::StripPrefix { path, prefix: p, message: _ }) ==> path@ == self@
                && p@ == prefix@,
    {
        match path_strip_prefix(self.0.as_str(), prefix) {
            Ok(rest) => Ok(Self(rest)),
            Err(message) => Err(
                Error::StripPrefix { path: self.0.clone(), prefix: prefix.to_owned(), message },
            ),
        }
    }

    pub fn into_path_buf(self) -> (res: String)
        ensures
            res@ == self@,
    {
        self.0
    }
}

/// A configured tree: a root directory and the repositories below it.
#[derive(Debug)]
pub struct Tree {
    pub root: Root,
    pub repos: Option<Vec<Repo>>,
}

impl Tree {
    /// This configured tree describes the tree `t`: same root, and each
    /// repository described by the one at the same position.
    pub open spec fn describes(self, t: tree::Tree) -> bool {
        &&& self.root@ == t.root@
        &&& self.repos matches Some(repos) && repos.len() == t.repos.len() && forall|i: int|
            0 <= i < repos.len() ==> #[trigger] t.repos[i].describes_config(repos[i])
    }

    /// A tree under `root` holding `repos`.
    pub fn from_repos(root: &str, repos: Vec<repo::Repo>) -> (res: Self)
        ensures
            res.root@ == root@,
            res.repos matches Some(rs) && rs.len() == repos.len() && forall|i: int|
                0 <= i < repos.len() ==> #[trigger] repos[i].describes_config(rs[i]),
    {
        Self { root: Root::new(root.to_owned()), repos: Some(repo::repos_into_config(repos)) }
    }

    pub fn from_tree(tree: tree::Tree) -> (res: Self)
        ensures
            res.describes(tree),
    {
        let ghost t = tree;
        let tree::Tree { root, repos } = tree;
        let root_str = root.into_path_buf();
        let converted = repo::repos_into_config(repos);
        Self { root: Root::new(root_str), repos: Some(converted) }
    }
}

/// Failures of reading a configuration file.
#[derive(Debug)]
pub enum ReadConfigError {
    NotFound { path: String },
    Generic { path: String, message: String },
    Parse { path: String, message: String },
}

/// How new worktree branches track remote branches.
#[derive(Debug)]
pub struct TrackingConfig {
    pub default: bool,
    pub default_remote: String,
    pub default_remote_prefix: Option<String>,
}

/// The configuration file at the root of a worktree setup.
#[derive(Debug)]
pub struct WorktreeRootConfig {
    pub persistent_branches: Option<Vec<String>>,
    pub track: Option<TrackingConfig>,
}

} // verus!
