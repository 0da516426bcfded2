//! Worktrees of a repository in a worktree setup: their names, the
//! configuration at the root of the setup, and the decisions taken when a
//! worktree is added, removed or cleaned up.
//!
//! Git and the file system are queried by the caller; the functions here take
//! what the queries found as plain values and decide what happens next.

pub mod add;
pub mod clean;
mod error;

use vstd::prelude::*;

pub use error::{
    CleanupWorktreeError, CleanupWorktreeWarning, CleanupWorktreeWarningReason, Error,
    WorktreeConversionError, WorktreeRemoveError, WorktreeValidationError,
    WorktreeValidationErrorReason,
};

use crate::repo::{self, RemoteName, RemoteUrl, RepoChanges};
use crate::text::{str_concat3, contains_double_char, has_double_char, str_eq, str_ends_with,
    str_starts_with};
use crate::{config, BranchName, Warning};

verus! {

broadcast use repo::remote::RemoteName::lemma_spec_new_view;

/// The directory that holds the git data of a worktree setup.
pub const GIT_MAIN_WORKTREE_DIRECTORY: &'static str = ".git-main-working-tree";

/// `c` has the Unicode `White_Space` property, which is what
/// `char::is_whitespace` tests.
pub open spec fn is_whitespace_char(c: char) -> bool {
    let n = c as int;
    ||| 9 <= n <= 13
    ||| n == 32
    ||| n == 0x85
    ||| n == 0xA0
    ||| n == 0x1680
    ||| 0x2000 <= n <= 0x200A
    ||| n == 0x2028
    ||| n == 0x2029
    ||| n == 0x202F
    ||| n == 0x205F
    ||| n == 0x3000
}

/// `c` has the Unicode `White_Space` property.
pub fn char_is_whitespace(c: char) -> (r: bool)
    ensures
        r == is_whitespace_char(c),
{
    let n = c as u32;
    (9 <= n && n <= 13) || n == 32 || n == 0x85 || n == 0xA0 || n == 0x1680 || (0x2000 <= n
        && n <= 0x200A) || n == 0x2028 || n == 0x2029 || n == 0x202F || n == 0x205F || n == 0x3000
}

/// Some character of `s` is whitespace.
pub open spec fn has_whitespace(s: Seq<char>) -> bool {
    exists|i: int| 0 <= i < s.len() && is_whitespace_char(#[trigger] s[i])
}

/// Some character of `s` is whitespace.
pub fn contains_whitespace(s: &str) -> (r: bool)
    ensures
        r == has_whitespace(s@),
{
    let n = s.unicode_len();
    let mut i: usize = 0;
    while i < n
        invariant
            n == s@.len(),
            i <= n,
            forall|j: int| 0 <= j < i ==> !is_whitespace_char(#[trigger] s@[j]),
        decreases n - i,
    {
        if char_is_whitespace(s.get_char(i)) {
            return true;
        }
        i = i + 1;
    }
    false
}

/// Why `name` cannot name a worktree, checked in this order: a slash at
/// either end, two consecutive slashes, whitespace. `None` when it can.
pub open spec fn worktree_name_problem(name: Seq<char>) -> Option<WorktreeValidationErrorReason> {
    if seq!['/'].is_prefix_of(name) || seq!['/'].is_suffix_of(name) {
        Some(WorktreeValidationErrorReason::SlashAtStartOrEnd)
    } else if has_double_char(name, '/') {
        Some(WorktreeValidationErrorReason::ConsecutiveSlashes)
    } else if has_whitespace(name) {
        Some(WorktreeValidationErrorReason::ContainsWhitespace)
    } else {
        None
    }
}

/// Why `name` cannot name a worktree, if it cannot.
pub fn check_worktree_name(name: &str) -> (r: Option<WorktreeValidationErrorReason>)
    ensures
        r == worktree_name_problem(name@),
{
    proof {
        reveal_strlit("/");
        assert("/"@ =~= seq!['/']);
    }
    if str_starts_with(name, "/") || str_ends_with(name, "/") {
        Some(WorktreeValidationErrorReason::SlashAtStartOrEnd)
    } else if contains_double_char(name, '/') {
        Some(WorktreeValidationErrorReason::ConsecutiveSlashes)
    } else if contains_whitespace(name) {
        Some(WorktreeValidationErrorReason::ContainsWhitespace)
    } else {
        None
    }
}

/// The name of a worktree. It is also the name of its directory and of its
/// branch, so it never starts or ends with a slash, never holds two
/// consecutive slashes and never holds whitespace.
#[derive(Debug, PartialEq, Eq)]
pub struct WorktreeName(String);

impl View for WorktreeName {
    type V = Seq<char>;

    closed spec fn view(&self) -> Seq<char> {
        self.0@
    }
}

impl Clone for WorktreeName {
    fn clone(&self) -> (res: Self)
        ensures
            res@ == self@,
    {
        WorktreeName(self.0.clone())
    }
}

impl WorktreeName {
    /// `name` as a worktree name, or why it cannot be one.
    pub fn new(name: String) -> (r: Result<Self, WorktreeValidationError>)
        ensures
            match worktree_name_problem(name@) {
                None => r matches Ok(n) && n@ == name@,
                Some(reason) => r matches Err(e) && e.spec_name() == name@ && e.spec_reason()
                    == reason,
            },
    {
        match check_worktree_name(name.as_str()) {
            None => Ok(WorktreeName(name)),
            Some(reason) => Err(WorktreeValidationError::new(name, reason)),
        }
    }

    pub fn as_str(&self) -> (r: &str)
        ensures
            r@ == self@,
    {
        self.0.as_str()
    }

    /// The branch of the same name.
    pub fn to_branch_name(&self) -> (r: BranchName)
        ensures
            r@ == self@,
    {
        BranchName::new(self.0.clone())
    }
}

/// A worktree of a repository.
pub struct Worktree {
    name: WorktreeName,
}

impl Worktree {
    pub closed spec fn spec_name(&self) -> WorktreeName {
        self.name
    }

    /// The worktree called `name`, if that is a valid worktree name.
    pub fn new(name: &str) -> (r: Result<Self, WorktreeValidationError>)
        ensures
            match worktree_name_problem(name@) {
                None => r matches Ok(w) && w.spec_name()@ == name@,
                Some(reason) => r matches Err(e) && e.spec_name() == name@ && e.spec_reason()
                    == reason,
            },
    {
        let name = WorktreeName::new(name.to_owned())?;
        Ok(Self { name })
    }

    pub fn name(&self) -> (r: &WorktreeName)
        ensures
            *r == self.spec_name(),
    {
        &self.name
    }

    pub fn into_name(self) -> (r: WorktreeName)
        ensures
            r == self.spec_name(),
    {
        self.name
    }
}

/// The worktrees that git lists by these names, in order; the first name
/// that is no valid worktree name stops the listing.
pub fn worktrees_from_names(names: Vec<String>) -> (r: Result<Vec<Worktree>, WorktreeValidationError>)
    ensures
        match r {
            Ok(ws) => ws.len() == names.len() && forall|i: int|
                0 <= i < names.len() ==> (#[trigger] ws[i]).spec_name()@ == names[i]@,
            Err(e) => exists|i: int|
                0 <= i < names.len() && (forall|j: int| 0 <= j < i ==> worktree_name_problem(
                    #[trigger] names[j]@,
                ) is None) && worktree_name_problem(#[trigger] names[i]@) == Some(e.spec_reason())
                    && e.spec_name() == names[i]@,
        },
{
    let mut res: Vec<Worktree> = Vec::new();
    let mut i: usize = 0;
    while i < names.len()
        invariant
            i <= names.len(),
            res.len() == i,
            forall|j: int| 0 <= j < i ==> (#[trigger] res[j]).spec_name()@ == names[j]@,
            forall|j: int| 0 <= j < i ==> worktree_name_problem(#[trigger] names[j]@) is None,
        decreases names.len() - i,
    {
        match Worktree::new(names[i].as_str()) {
            Ok(w) => res.push(w),
            Err(e) => {
                assert(worktree_name_problem(names[i as int]@) == Some(e.spec_reason()));
                return Err(e);
            },
        }
        i = i + 1;
    }
    Ok(res)
}

/// Whether a repository uses a worktree setup.
#[derive(Debug, PartialEq, Eq, Clone, Copy, Structural)]
pub enum WorktreeSetup {
    Worktree,
    NoWorktree,
}

impl WorktreeSetup {
    pub fn is_worktree(&self) -> (r: bool)
        ensures
            r == (*self == WorktreeSetup::Worktree),
    {
        match self {
            WorktreeSetup::Worktree => true,
            WorktreeSetup::NoWorktree => false,
        }
    }

    /// `Worktree` for `true`, `NoWorktree` for `false`.
    pub fn from_bool(value: bool) -> (r: Self)
        ensures
            value ==> r == WorktreeSetup::Worktree,
            !value ==> r == WorktreeSetup::NoWorktree,
    {
        if value {
            WorktreeSetup::Worktree
        } else {
            WorktreeSetup::NoWorktree
        }
    }
}

/// How a new worktree's branch is to track a remote branch.
pub enum TrackingSelection {
    /// Track this remote branch.
    Explicit { remote_name: RemoteName, remote_branch_name: BranchName },
    /// Track as the configuration says.
    Automatic,
    /// Track nothing.
    Disabled,
}

/// Whether new worktrees track a remote branch by default.
#[derive(Debug, Clone, Copy, PartialEq, Eq, Structural)]
pub enum TrackingDefault {
    Track,
    NoTrack,
}

/// How new worktree branches track remote branches.
pub struct TrackingConfig {
    pub default: TrackingDefault,
    pub default_remote: RemoteName,
    pub default_remote_prefix: Option<String>,
}

impl TrackingConfig {
    pub fn from_config(other: config::TrackingConfig) -> (res: Self)
        ensures
            res.default == (if other.default { TrackingDefault::Track } else { TrackingDefault::NoTrack }),
            res.default_remote@ == other.default_remote@,
            res.default_remote_prefix == other.default_remote_prefix,
    {
        Self {
            default: if other.default {
                TrackingDefault::Track
            } else {
                TrackingDefault::NoTrack
            },
            default_remote: RemoteName::new(other.default_remote),
            default_remote_prefix: other.default_remote_prefix,
        }
    }
}

/// The configuration at the root of a worktree setup.
pub struct WorktreeRootConfig {
    pub persistent_branches: Option<Vec<BranchName>>,
    pub track: Option<TrackingConfig>,
}

impl WorktreeRootConfig {
    pub fn from_config(other: config::WorktreeRootConfig) -> (res: Self)
        ensures
            match (res.persistent_branches, other.persistent_branches) {
                (Some(a), Some(b)) => a.len() == b.len() && forall|i: int|
                    0 <= i < a.len() ==> #[trigger] a[i]@ == b[i]@,
                (None, None) => true,
                _ => false,
            },
            match (res.track, other.track) {
                (Some(a), Some(b)) => a.default == (if b.default { TrackingDefault::Track } else { TrackingDefault::NoTrack })
                    && a.default_remote@ == b.default_remote@
                    && a.default_remote_prefix == b.default_remote_prefix,
                (None, None) => true,
                _ => false,
            },
    {
        let config::WorktreeRootConfig { persistent_branches, track } = other;
        Self {
            persistent_branches: match persistent_branches {
                Some(branches) => Some(repo::branch_names(branches)),
                None => None,
            },
            track: match track {
                Some(track) => Some(TrackingConfig::from_config(track)),
                None => None,
            },
        }
    }
}

/// Whether a repository may be converted to a worktree setup: not with
/// changes, and not with ignored files, which the conversion would lose.
pub fn check_conversion(changes: Option<RepoChanges>, has_ignored_files: bool) -> (r: Result<(), WorktreeConversionError>)
    ensures
        changes matches Some(c) ==> (r matches Err(WorktreeConversionError::Changes(c2)) && c2 == c),
        changes is None && has_ignored_files ==> r matches Err(WorktreeConversionError::Ignored),
        changes is None && !has_ignored_files ==> r is Ok,
{
    if let Some(c) = changes {
        return Err(WorktreeConversionError::Changes(c));
    }
    if has_ignored_files {
        return Err(WorktreeConversionError::Ignored);
    }
    Ok(())
}

/// Whether an entry of a repository's directory is removed when it is
/// converted to a worktree setup: everything goes but the main worktree
/// directory, which now holds the repository.
pub fn removed_on_conversion(entry_name: &str) -> (r: bool)
    ensures
        r == (entry_name@ != GIT_MAIN_WORKTREE_DIRECTORY@),
{
    !str_eq(entry_name, GIT_MAIN_WORKTREE_DIRECTORY)
}

} // verus!
