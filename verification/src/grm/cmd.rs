//! The arguments of the `grm` command line. The parser itself is built in
//! `app/`, on copies of these types.

use vstd::prelude::*;

verus! {

/// The parsed command line.
pub struct Opts {
    pub subcmd: SubCommand,
}

/// The subcommands.
pub enum SubCommand {
    Repos(Repos),
    Worktree(Worktree),
}

/// Manage repositories.
pub struct Repos {
    pub action: ReposAction,
}

/// The repository actions.
pub enum ReposAction {
    Sync(SyncAction),
    Find(FindAction),
    Status(OptionalConfig),
}

/// Sync local repositories with a configured list.
pub enum SyncAction {
    Config(Config),
    Remote(SyncRemoteArgs),
}

/// Generate a repository configuration from existing repositories.
pub enum FindAction {
    Local(FindLocalArgs),
    Remote(FindRemoteArgs),
    Config(FindConfigArgs),
}

/// Find local repositories.
pub struct FindLocalArgs {
    pub path: String,
    pub exclude: Option<String>,
    pub format: ConfigFormat,
}

/// Find the repositories that a provider configuration file describes.
pub struct FindConfigArgs {
    pub config: String,
    pub format: ConfigFormat,
}

/// Find repositories on a forge.
pub struct FindRemoteArgs {
    pub config: Option<String>,
    pub provider: RemoteProvider,
    pub remote_name: Option<String>,
    pub users: Vec<String>,
    pub groups: Vec<String>,
    pub owner: bool,
    pub access: bool,
    pub force_ssh: bool,
    pub token_command: String,
    pub root: String,
    pub format: ConfigFormat,
    pub worktree: String,
    pub api_url: Option<String>,
}

/// Synchronise with a configuration file.
pub struct Config {
    pub config: String,
    pub init_worktree: String,
}

/// A forge kind.
pub type RemoteProvider = crate::provider::RemoteProvider;

/// Synchronise with a forge.
pub struct SyncRemoteArgs {
    pub provider: RemoteProvider,
    pub remote_name: Option<String>,
    pub users: Vec<String>,
    pub groups: Vec<String>,
    pub owner: bool,
    pub access: bool,
    pub force_ssh: bool,
    pub token_command: String,
    pub root: String,
    pub worktree: String,
    pub api_url: Option<String>,
    pub init_worktree: String,
}

/// An optional configuration file.
pub struct OptionalConfig {
    pub config: Option<String>,
}

/// The format a configuration is printed in.
#[derive(Clone, Copy, Debug, PartialEq, Eq, Structural)]
pub enum ConfigFormat {
    Yaml,
    Toml,
}

/// Manage worktrees.
pub struct Worktree {
    pub action: WorktreeAction,
}

/// The worktree actions.
pub enum WorktreeAction {
    Add(WorktreeAddArgs),
    Delete(WorktreeDeleteArgs),
    Status(WorktreeStatusArgs),
    Convert(WorktreeConvertArgs),
    Clean(WorktreeCleanArgs),
    Fetch(WorktreeFetchArgs),
    Pull(WorktreePullArgs),
    Rebase(WorktreeRebaseArgs),
}

/// Add a worktree.
pub struct WorktreeAddArgs {
    pub name: String,
    pub track: Option<String>,
    pub no_track: bool,
}

/// Delete a worktree.
pub struct WorktreeDeleteArgs {
    pub name: String,
    pub force: bool,
}

/// Show the state of the worktrees.
pub struct WorktreeStatusArgs;

/// Convert a repository to a worktree setup.
pub struct WorktreeConvertArgs;

/// Remove the worktrees without changes.
pub struct WorktreeCleanArgs;

/// Fetch from all remotes.
pub struct WorktreeFetchArgs;

/// Fetch and bring the worktree branches forward.
pub struct WorktreePullArgs {
    pub rebase: bool,
    pub stash: bool,
}

/// Rebase the worktree branches onto the default branch.
pub struct WorktreeRebaseArgs {
    pub pull: bool,
    pub rebase: bool,
    pub stash: bool,
}

} // verus!
