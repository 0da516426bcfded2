# grm

A manager for git repositories and worktrees: it keeps a set of
repositories, described in a configuration file or listed by a forge
(GitHub, GitLab), in sync with the file system, and manages worktree
setups (adding, removing, cleaning up, converting, rebasing).

## Layout

- `src/` is the library, verified with Verus. It holds the data model
  (configuration, repositories, remotes, worktrees, forge projects) and
  every decision of the tool: which commit a new worktree starts from and
  what it tracks, when a worktree may be removed, which worktrees a
  cleanup removes, how remote URLs are classified, how found repositories
  are named and grouped into trees, how forge listings are merged, which
  exit code a run ends with, and the text of messages and status tables.
  Each public function states its result in its contract; laws that
  relate several functions are public proof functions named `law_*`.
- `app/` is the program around it: command-line parsing, reading and
  writing configuration files, git, network access to the forges and
  terminal output. It hands the library plain values and carries out what
  the library decides.
- `tests/` runs the library on concrete values.
