//! The arguments of the first command line of the tool: `sync`, `find`,
//! `status` and `worktree`. The parser itself is built in `app/`.

use vstd::prelude::*;

verus! {

/// The parsed command line.
pub struct Opts {
    pub subcmd: SubCommand,
}

/// The subcommands.
pub enum SubCommand {
    Sync(Sync),
    Find(Find),
    Status(OptionalConfig),
    Worktree(Worktree),
}

/// Synchronise the repositories to the configuration file.
pub struct Sync {
    pub config: String,
}

/// An optional configuration file.
pub struct OptionalConfig {
    pub config: Option<String>,
}

/// Generate a configuration from the repositories below `path`.
pub struct Find {
    pub path: String,
}

/// Manage worktrees.
pub struct Worktree {
    pub action: WorktreeAction,
}

/// The worktree actions.
pub enum WorktreeAction {
    Add(WorktreeAddArgs),
    Delete(WorktreeDeleteArgs),
    Status(WorktreeStatusArgs),
    Clean(WorktreeCleanArgs),
}

/// Add a worktree.
pub struct WorktreeAddArgs {
    pub name: String,
    pub branch_prefix: Option<String>,
    pub track: Option<String>,
}

/// Delete a worktree.
pub struct WorktreeDeleteArgs {
    pub name: String,
    pub force: bool,
}

/// Show the state of the worktrees.
pub struct WorktreeStatusArgs {}

/// Remove the worktrees without changes.
pub struct WorktreeCleanArgs {}

} // verus!
