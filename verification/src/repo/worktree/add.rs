//! The decisions taken when a worktree is added: which commit its new
//! branch starts from, which remote branch it tracks, how tracking is set
//! up, and where its directories lie.

use vstd::prelude::*;

use super::{Error, TrackingConfig, TrackingDefault, TrackingSelection, WorktreeName,
    GIT_MAIN_WORKTREE_DIRECTORY};
use crate::path::{path_join, path_parent, spec_path_join, spec_path_parent};
use crate::repo::{self, basename_of, branch_basename, is_pushable_url, remote_type_of,
    RemoteName, RemoteType, RemoteUrl, SCP_LIKE_URL_PATTERN};
use crate::text::{str_concat, str_concat3, spec_regex_is_match, str_contains_char, str_eq};
use crate::{BranchName, Warning};

verus! {

broadcast use repo::remote::RemoteName::lemma_spec_new_view;

/// The error of opening the worktree setup a worktree is added to: a
/// directory without a repository is no worktree setup; any other failure
/// is reported as it is.
pub fn setup_open_error(e: repo::Error) -> (r: Error)
    ensures
        e is NotFound ==> r is NotAWorktreeSetup,
        !(e is NotFound) ==> r == Error::Repo(e),
{
    match e {
        repo::Error::NotFound => Error::NotAWorktreeSetup,
        other => Error::Repo(other),
    }
}

/// A worktree is added only under a name that no worktree has yet.
pub fn check_worktree_absent(name: &WorktreeName, exists: bool) -> (r: Result<(), Error>)
    ensures
        exists ==> (r matches Err(Error::WorktreeAlreadyExists { name: n }) && n@ == name@),
        !exists ==> r is Ok,
{
    if exists {
        Err(Error::WorktreeAlreadyExists { name: name.clone() })
    } else {
        Ok(())
    }
}

/// A commit, by the hex string of its id.
#[derive(Debug, PartialEq, Eq)]
pub struct CommitId(String);

impl View for CommitId {
    type V = Seq<char>;

    closed spec fn view(&self) -> Seq<char> {
        self.0@
    }
}

impl Clone for CommitId {
    fn clone(&self) -> (r: Self)
        ensures
            r@ == self@,
    {
        CommitId(self.0.clone())
    }
}

impl CommitId {
    pub fn new(hex: String) -> (r: Self)
        ensures
            r@ == hex@,
    {
        Self(hex)
    }

    pub fn as_str(&self) -> (r: &str)
        ensures
            r@ == self@,
    {
        self.0.as_str()
    }
}

/// The view of an optional commit.
pub open spec fn commit_view(c: Option<CommitId>) -> Option<Seq<char>> {
    match c {
        Some(id) => Some(id@),
        None => None,
    }
}

/// `<prefix>/<name>`, the name of a branch below a prefix.
pub fn prefixed_branch_name(prefix: &str, name: &BranchName) -> (r: BranchName)
    ensures
        r@ == prefix@ + seq!['/'] + name@,
{
    proof {
        reveal_strlit("/");
        assert("/"@ =~= seq!['/']);
    }
    BranchName::new(str_concat3(prefix, "/", name.as_str()))
}

/// The branches looked up on a remote for a new worktree: the worktree's
/// name below the configured prefix, if there is a prefix, and the
/// worktree's name itself.
pub fn remote_lookup_names(name: &WorktreeName, prefix: Option<&str>) -> (r: (Option<BranchName>, BranchName))
    ensures
        match prefix {
            Some(p) => r.0 matches Some(b) && b@ == p@ + seq!['/'] + name@,
            None => r.0 is None,
        },
        r.1@ == name@,
{
    let plain = name.to_branch_name();
    let prefixed = match prefix {
        Some(p) => Some(prefixed_branch_name(p, &plain)),
        None => None,
    };
    (prefixed, plain)
}

/// What one remote has of the branch a new worktree is named after: the
/// commit of the branch below the prefix, and of the branch itself.
pub struct RemoteHeads {
    pub with_prefix: Option<CommitId>,
    pub without_prefix: Option<CommitId>,
}

/// The commit a remote offers: the prefixed branch when a prefix is
/// configured and the remote has it, the plain branch otherwise.
pub open spec fn head_of(h: RemoteHeads, has_prefix: bool) -> Option<Seq<char>> {
    if has_prefix && h.with_prefix is Some {
        commit_view(h.with_prefix)
    } else {
        commit_view(h.without_prefix)
    }
}

/// The commits that the remotes offer, in the order of the remotes; remotes
/// that offer none are left out.
pub open spec fn found_heads(heads: Seq<RemoteHeads>, has_prefix: bool) -> Seq<Seq<char>>
    decreases heads.len(),
{
    if heads.len() == 0 {
        Seq::empty()
    } else {
        let before = found_heads(heads.drop_last(), has_prefix);
        match head_of(heads.last(), has_prefix) {
            Some(c) => before.push(c),
            None => before,
        }
    }
}

/// All commits are the first.
pub open spec fn all_equal(commits: Seq<Seq<char>>) -> bool {
    forall|i: int| 0 <= i < commits.len() ==> #[trigger] commits[i] == commits[0]
}

/// What the remotes agree on: the commit they all offer, if at least one
/// offers one and no two differ.
pub open spec fn agreed_head(commits: Seq<Seq<char>>) -> Option<Seq<char>> {
    if commits.len() > 0 && all_equal(commits) {
        Some(commits[0])
    } else {
        None
    }
}

/// The remotes offer commits that differ.
pub open spec fn heads_deviate(commits: Seq<Seq<char>>) -> bool {
    commits.len() > 0 && !all_equal(commits)
}

/// Where the branch of a new worktree starts.
pub enum TargetCommit {
    /// The branch exists already and is left as it is.
    LocalBranch,
    /// At this commit of a remote branch.
    Commit(CommitId),
    /// At the head of the repository's default branch.
    DefaultBranch,
}

/// The view of a start: `None` for an existing branch, `Some(Some(c))` for
/// commit `c`, `Some(None)` for the default branch.
pub open spec fn target_view(t: TargetCommit) -> Option<Option<Seq<char>>> {
    match t {
        TargetCommit::LocalBranch => None,
        TargetCommit::Commit(c) => Some(Some(c@)),
        TargetCommit::DefaultBranch => Some(None),
    }
}

/// Where the branch of a new worktree starts.
///
/// An existing branch is left alone. With an explicit tracking branch, the
/// branch starts at it if the remote has it, at the default branch
/// otherwise. Otherwise the remotes are asked: the only remote, if there is
/// one; with several, the configured default remote first, then every
/// remote, whose answer counts only when those that answer agree. Where no
/// answer comes, the branch starts at the default branch.
pub open spec fn spec_target(
    local_branch_exists: bool,
    explicit: bool,
    explicit_head: Option<Seq<char>>,
    heads: Seq<RemoteHeads>,
    has_prefix: bool,
    default_head: Option<Seq<char>>,
) -> Option<Option<Seq<char>>> {
    if local_branch_exists {
        None
    } else if explicit {
        Some(explicit_head)
    } else if heads.len() == 0 {
        Some(None)
    } else if heads.len() == 1 {
        Some(head_of(heads[0], has_prefix))
    } else {
        match default_head {
            Some(c) => Some(Some(c)),
            None => Some(agreed_head(found_heads(heads, has_prefix))),
        }
    }
}

/// The remotes were asked, disagreed, and the default branch was taken for
/// that reason. The answer of a configured default remote does not stop
/// the question being put to all remotes.
pub open spec fn spec_deviation_warned(
    local_branch_exists: bool,
    explicit: bool,
    heads: Seq<RemoteHeads>,
    has_prefix: bool,
) -> bool {
    !local_branch_exists && !explicit && heads.len() > 1 && heads_deviate(
        found_heads(heads, has_prefix),
    )
}

/// The message of the warning about remotes that disagree.
pub open spec fn deviation_warning() -> Seq<char> {
    "Branch exists on multiple remotes, but they deviate. Selecting default branch instead"@
}

/// Where the branch of a new worktree starts, and the warnings raised on
/// the way.
pub struct TargetSelection {
    pub target: TargetCommit,
    pub warnings: Vec<Warning>,
}

/// The commit that one remote offers.
fn remote_head(h: &RemoteHeads, has_prefix: bool) -> (r: Option<CommitId>)
    ensures
        commit_view(r) == head_of(*h, has_prefix),
{
    if has_prefix {
        if let Some(c) = &h.with_prefix {
            return Some(c.clone());
        }
    }
    match &h.without_prefix {
        Some(c) => Some(c.clone()),
        None => None,
    }
}

/// What all remotes together offer: the agreed commit, and whether they
/// disagreed.
fn scan_remotes(heads: &Vec<RemoteHeads>, has_prefix: bool) -> (r: (Option<CommitId>, bool))
    ensures
        commit_view(r.0) == agreed_head(found_heads(heads@, has_prefix)),
        r.1 == heads_deviate(found_heads(heads@, has_prefix)),
{
    let mut first: Option<CommitId> = None;
    let mut same = true;
    let mut i: usize = 0;
    while i < heads.len()
        invariant
            i <= heads.len(),
            ({
                let found = found_heads(heads@.subrange(0, i as int), has_prefix);
                &&& (found.len() == 0 <==> first is None)
                &&& (first matches Some(c) ==> c@ == found[0])
                &&& same == all_equal(found)
            }),
        decreases heads.len() - i,
    {
        let ghost prefix = heads@.subrange(0, i as int);
        let ghost next = heads@.subrange(0, i + 1);
        assert(next.drop_last() =~= prefix);
        assert(next.last() == heads@[i as int]);
        let ghost found_before = found_heads(prefix, has_prefix);
        let h = remote_head(&heads[i], has_prefix);
        match h {
            Some(c) => {
                assert(found_heads(next, has_prefix) == found_before.push(c@));
                match &first {
                    None => {
                        first = Some(c);
                        assert(all_equal(found_before.push(c@)));
                    },
                    Some(f) => {
                        if !str_eq(f.as_str(), c.as_str()) {
                            same = false;
                            assert(found_before.push(c@)[found_before.len() as int] != found_before.push(c@)[0]);
                        } else {
                            if same {
                                assert(all_equal(found_before.push(c@)));
                            } else {
                                assert(!all_equal(found_before.push(c@))) by {
                                    let k = choose|k: int| 0 <= k < found_before.len() && #[trigger] found_before[k] != found_before[0];
                                    assert(found_before.push(c@)[k] != found_before.push(c@)[0]);
                                }
                            }
                        }
                    },
                }
            },
            None => {
                assert(found_heads(next, has_prefix) == found_before);
            },
        }
        i = i + 1;
    }
    assert(heads@.subrange(0, heads.len() as int) =~= heads@);
    if same {
        (first, false)
    } else {
        (None, first.is_some())
    }
}

/// Where the branch of a new worktree starts; see `spec_target`.
///
/// `explicit_head` is the commit of the explicitly requested tracking
/// branch, if the remote has it. `heads` holds what each remote of the
/// repository offers, in the order of the remotes, and
/// `default_remote_heads` what the configured default remote offers, if a
/// default remote is configured.
pub fn select_target(
    local_branch_exists: bool,
    selection: &TrackingSelection,
    explicit_head: Option<CommitId>,
    heads: &Vec<RemoteHeads>,
    prefix: Option<&str>,
    default_remote_heads: Option<RemoteHeads>,
) -> (r: TargetSelection)
    ensures
        target_view(r.target) == spec_target(
            local_branch_exists,
            selection is Explicit,
            commit_view(explicit_head),
            heads@,
            prefix is Some,
            match default_remote_heads {
                Some(h) => head_of(h, prefix is Some),
                None => None,
            },
        ),
        spec_deviation_warned(local_branch_exists, selection is Explicit, heads@, prefix is Some)
            ==> r.warnings.len() == 1 && r.warnings[0]@ == deviation_warning(),
        !spec_deviation_warned(local_branch_exists, selection is Explicit, heads@, prefix is Some)
            ==> r.warnings.len() == 0,
{
    let mut warnings: Vec<Warning> = Vec::new();
    let has_prefix = prefix.is_some();
    if local_branch_exists {
        return TargetSelection { target: TargetCommit::LocalBranch, warnings };
    }
    if let TrackingSelection::Explicit { .. } = selection {
        let target = match explicit_head {
            Some(c) => TargetCommit::Commit(c),
            None => TargetCommit::DefaultBranch,
        };
        return TargetSelection { target, warnings };
    }
    if heads.len() == 0 {
        return TargetSelection { target: TargetCommit::DefaultBranch, warnings };
    }
    if heads.len() == 1 {
        let target = match remote_head(&heads[0], has_prefix) {
            Some(c) => TargetCommit::Commit(c),
            None => TargetCommit::DefaultBranch,
        };
        return TargetSelection { target, warnings };
    }
    let from_default_remote = match &default_remote_heads {
        Some(h) => remote_head(h, has_prefix),
        None => None,
    };
    let (agreed, deviate) = scan_remotes(heads, has_prefix);
    if deviate {
        warnings.push(
            Warning::new(
                "Branch exists on multiple remotes, but they deviate. Selecting default branch instead".to_owned(),
            ),
        );
    }
    let target = match from_default_remote {
        Some(c) => TargetCommit::Commit(c),
        None => match agreed {
            Some(c) => TargetCommit::Commit(c),
            None => TargetCommit::DefaultBranch,
        },
    };
    TargetSelection { target, warnings }
}

/// The remote branch that a new worktree's branch is to track, and the
/// prefix that its name on the remote gets.
pub struct RemoteTrackingBranch {
    pub remote_name: RemoteName,
    pub remote_branch_name: BranchName,
    pub prefix: Option<String>,
}

/// The view of a prefix.
pub open spec fn prefix_view(p: Option<String>) -> Option<Seq<char>> {
    match p {
        Some(s) => Some(s@),
        None => None,
    }
}

/// The view of a tracking branch: remote, branch and prefix.
pub open spec fn tracking_view(t: Option<RemoteTrackingBranch>) -> Option<(Seq<char>, Seq<char>, Option<Seq<char>>)> {
    match t {
        Some(b) => Some((b.remote_name@, b.remote_branch_name@, prefix_view(b.prefix))),
        None => None,
    }
}

/// The remote branch that a new worktree called `name` tracks: see
/// `select_tracking`.
pub open spec fn spec_selected_tracking(
    name: Seq<char>,
    selection: TrackingSelection,
    remotes: Seq<RemoteName>,
    track: Option<TrackingConfig>,
) -> Option<(Seq<char>, Seq<char>, Option<Seq<char>>)> {
    match selection {
        TrackingSelection::Disabled => None,
        TrackingSelection::Explicit { remote_name, remote_branch_name } => Some(
            (remote_name@, remote_branch_name@, None),
        ),
        TrackingSelection::Automatic => match track {
            None => None,
            Some(tc) => if tc.default == TrackingDefault::NoTrack || remotes.len() == 0 {
                None
            } else if remotes.len() == 1 {
                Some((remotes[0]@, name, prefix_view(tc.default_remote_prefix)))
            } else {
                Some((tc.default_remote@, name, prefix_view(tc.default_remote_prefix)))
            },
        },
    }
}

/// The remote branch to track: the explicit one without a prefix; with
/// automatic tracking, and tracking enabled by default in the
/// configuration, the worktree's name on the only remote, or on the
/// configured default remote when there are several; nothing otherwise.
pub fn select_tracking(
    name: &WorktreeName,
    selection: TrackingSelection,
    remotes: &Vec<RemoteName>,
    track: Option<&TrackingConfig>,
) -> (r: Option<RemoteTrackingBranch>)
    ensures
        tracking_view(r) == spec_selected_tracking(
            name@,
            selection,
            remotes@,
            match track {
                Some(t) => Some(*t),
                None => None,
            },
        ),
{
    match selection {
        TrackingSelection::Disabled => None,
        TrackingSelection::Explicit { remote_name, remote_branch_name } => Some(
            RemoteTrackingBranch { remote_name, remote_branch_name, prefix: None },
        ),
        TrackingSelection::Automatic => match track {
            None => None,
            Some(tc) => {
                if tc.default == TrackingDefault::NoTrack || remotes.len() == 0 {
                    None
                } else if remotes.len() == 1 {
                    Some(
                        RemoteTrackingBranch {
                            remote_name: remotes[0].clone(),
                            remote_branch_name: name.to_branch_name(),
                            prefix: tc.default_remote_prefix.clone(),
                        },
                    )
                } else {
                    Some(
                        RemoteTrackingBranch {
                            remote_name: tc.default_remote.clone(),
                            remote_branch_name: name.to_branch_name(),
                            prefix: tc.default_remote_prefix.clone(),
                        },
                    )
                }
            },
        },
    }
}

/// The name of the branch on the remote that tracking uses: the tracking
/// branch below its prefix, or the tracking branch itself.
pub open spec fn spec_upstream_name(t: RemoteTrackingBranch) -> Seq<char> {
    match t.prefix {
        Some(p) => p@ + seq!['/'] + t.remote_branch_name@,
        None => t.remote_branch_name@,
    }
}

/// The name of the branch on the remote that tracking uses.
pub fn upstream_name(t: &RemoteTrackingBranch) -> (r: BranchName)
    ensures
        r@ == spec_upstream_name(*t),
{
    match &t.prefix {
        Some(p) => prefixed_branch_name(p.as_str(), &t.remote_branch_name),
        None => t.remote_branch_name.clone(),
    }
}

/// How tracking is set up for a new worktree's branch.
pub enum UpstreamPlan {
    /// The remote branch exists: the local branch tracks it.
    Track { remote_name: RemoteName, branch_name: BranchName, warnings: Vec<Warning> },
    /// The remote branch is missing: the local branch is pushed to it, and
    /// then tracks it.
    Push { remote_name: RemoteName, local_branch_name: BranchName, remote_branch_name: BranchName },
}

/// The warning about a local branch that differs from the remote branch it
/// is set to track.
pub open spec fn differ_warning(local: Seq<char>, remote: Seq<char>, branch: Seq<char>) -> Seq<char> {
    "The local branch \""@ + local + "\" and the remote branch \""@ + remote + seq!['/'] + branch
        + "\" differ. Make sure to push/pull afterwards!"@
}

fn differ_message(local: &BranchName, remote: &RemoteName, branch: &BranchName) -> (r: String)
    ensures
        r@ == differ_warning(local@, remote@, branch@),
{
    proof {
        reveal_strlit("/");
        assert("/"@ =~= seq!['/']);
    }
    let mut m = str_concat3("The local branch \"", local.as_str(), "\" and the remote branch \"");
    m.append(remote.as_str());
    m.append("/");
    m.append(branch.as_str());
    m.append("\" differ. Make sure to push/pull afterwards!");
    m
}

/// How tracking is set up for a new worktree's branch.
///
/// `remote_branch` is the name (as git lists it, with the remote in front)
/// and commit of the upstream branch, if the remote has it; `local_commit`
/// is the commit of the local branch; `remote_url` is the URL of the
/// remote, if the repository has it. An existing upstream branch is
/// tracked, with a warning when it is at another commit than the local
/// branch. A missing one is created by pushing the local branch, which
/// needs the remote to exist and to be pushable.
pub fn plan_upstream(
    local_branch_name: &BranchName,
    t: &RemoteTrackingBranch,
    remote_branch: Option<(BranchName, CommitId)>,
    local_commit: &CommitId,
    remote_url: Option<RemoteUrl>,
) -> (r: Result<UpstreamPlan, Error>)
    ensures
        match remote_branch {
            Some((found_name, found_commit)) => r matches Ok(UpstreamPlan::Track { remote_name, branch_name, warnings })
                && remote_name@ == t.remote_name@ && branch_name@ == basename_of(found_name@)
                && (found_commit@ == local_commit@ ==> warnings.len() == 0)
                && (found_commit@ != local_commit@ ==> warnings.len() == 1 && warnings[0]@
                == differ_warning(local_branch_name@, t.remote_name@, t.remote_branch_name@)),
            None => match remote_url {
                None => r matches Err(Error::RemoteNotFound { name }) && name@ == t.remote_name@,
                Some(url) => match spec_regex_is_match(SCP_LIKE_URL_PATTERN@, url@) {
                    Ok(m) => match remote_type_of(url@, m) {
                        Ok(RemoteType::Https) => r matches Err(Error::RemoteNotPushable { name })
                            && name@ == t.remote_name@,
                        Ok(_) => r matches Ok(UpstreamPlan::Push { remote_name, local_branch_name: l, remote_branch_name })
                            && remote_name@ == t.remote_name@ && l@ == local_branch_name@
                            && remote_branch_name@ == spec_upstream_name(*t),
                        Err(e) => r matches Err(Error::Repo(e2)) && e2 == e,
                    },
                    Err(message) => r matches Err(Error::Repo(repo::Error::InvalidRegex { message: m }))
                        && m@ == message,
                },
            },
        },
{
    match remote_branch {
        Some((found_name, found_commit)) => {
            let mut warnings: Vec<Warning> = Vec::new();
            if !str_eq(found_commit.as_str(), local_commit.as_str()) {
                warnings.push(
                    Warning::new(differ_message(local_branch_name, &t.remote_name, &t.remote_branch_name)),
                );
            }
            Ok(UpstreamPlan::Track {
                remote_name: t.remote_name.clone(),
                branch_name: branch_basename(&found_name),
                warnings,
            })
        },
        None => match remote_url {
            None => Err(Error::RemoteNotFound { name: t.remote_name.clone() }),
            Some(url) => match is_pushable_url(&url) {
                Ok(true) => Ok(UpstreamPlan::Push {
                    remote_name: t.remote_name.clone(),
                    local_branch_name: local_branch_name.clone(),
                    remote_branch_name: upstream_name(t),
                }),
                Ok(false) => Err(Error::RemoteNotPushable { name: t.remote_name.clone() }),
                Err(e) => Err(Error::Repo(e)),
            },
        },
    }
}

/// Where a new worktree goes: its directory below the setup's directory
/// and, for a name with a slash, the directories to create first.
pub struct WorktreeLayout {
    pub worktree_directory: String,
    /// The directory of the worktree's git data below the main worktree
    /// directory, and the parent directory of the worktree.
    pub parent_directories: Option<(String, String)>,
}

/// Where a new worktree goes. Git creates the data directory of a worktree
/// with the worktree's full name inside the main worktree directory, so for
/// a name with a slash its parent must exist there, and the parent of the
/// worktree itself too.
pub fn worktree_layout(directory: &str, name: &WorktreeName) -> (r: WorktreeLayout)
    ensures
        r.worktree_directory@ == spec_path_join(directory@, name@),
        !name@.contains('/') ==> r.parent_directories is None,
        name@.contains('/') ==> match spec_path_parent(name@) {
            Some(base) => r.parent_directories matches Some((data, parent)) && data@ == spec_path_join(
                spec_path_join(spec_path_join(directory@, GIT_MAIN_WORKTREE_DIRECTORY@), "worktrees"@),
                base,
            ) && parent@ == base,
            None => r.parent_directories is None,
        },
{
    let worktree_directory = path_join(directory, name.as_str());
    let parent_directories = if str_contains_char(name.as_str(), '/') {
        match path_parent(name.as_str()) {
            Some(base) => {
                let main = path_join(directory, GIT_MAIN_WORKTREE_DIRECTORY);
                let data_root = path_join(main.as_str(), "worktrees");
                Some((path_join(data_root.as_str(), base.as_str()), base))
            },
            None => None,
        }
    } else {
        None
    };
    WorktreeLayout { worktree_directory, parent_directories }
}

/// What the remotes offer when none of them has the branch below the
/// prefix.
proof fn lemma_found_heads_without_prefixed(heads: Seq<RemoteHeads>)
    requires
        forall|i: int| 0 <= i < heads.len() ==> (#[trigger] heads[i]).with_prefix is None,
    ensures
        found_heads(heads, true) == found_heads(heads, false),
    decreases heads.len(),
{
    if heads.len() > 0 {
        lemma_found_heads_without_prefixed(heads.drop_last());
        assert(heads.last() == heads[heads.len() - 1]);
    }
}

/// A configured prefix changes where a new worktree starts only through
/// branches below the prefix: where no remote has the branch below the
/// prefix, the start is the one chosen with no prefix configured, so an
/// existing branch without the prefix is used.
pub proof fn law_prefix_falls_back_to_plain_branch(
    local_branch_exists: bool,
    explicit: bool,
    explicit_head: Option<Seq<char>>,
    heads: Seq<RemoteHeads>,
    default_remote_heads: Option<RemoteHeads>,
)
    requires
        forall|i: int| 0 <= i < heads.len() ==> (#[trigger] heads[i]).with_prefix is None,
        default_remote_heads matches Some(h) ==> h.with_prefix is None,
    ensures
        spec_target(
            local_branch_exists,
            explicit,
            explicit_head,
            heads,
            true,
            match default_remote_heads {
                Some(h) => head_of(h, true),
                None => None,
            },
        ) == spec_target(
            local_branch_exists,
            explicit,
            explicit_head,
            heads,
            false,
            match default_remote_heads {
                Some(h) => head_of(h, false),
                None => None,
            },
        ),
{
    lemma_found_heads_without_prefixed(heads);
    if heads.len() > 0 {
        assert(heads[0].with_prefix is None);
    }
}

/// With a single remote and no prefix, a new branch that is neither
/// existing nor explicitly tracked starts at the remote's branch of the
/// worktree's name if the remote has it, and at the default branch
/// otherwise. With a prefix and the remote's branch below it, it starts
/// there.
pub proof fn law_single_remote_start(explicit_head: Option<Seq<char>>, h: RemoteHeads, default_head: Option<Seq<char>>)
    ensures
        spec_target(false, false, explicit_head, seq![h], false, default_head) == Some(commit_view(h.without_prefix)),
        h.with_prefix is Some ==> spec_target(false, false, explicit_head, seq![h], true, default_head) == Some(
            commit_view(h.with_prefix),
        ),
{
}

/// An existing local branch is used as it is: nothing is chosen for it
/// and nothing is warned about.
pub proof fn law_existing_branch_kept(
    explicit: bool,
    explicit_head: Option<Seq<char>>,
    heads: Seq<RemoteHeads>,
    has_prefix: bool,
    default_head: Option<Seq<char>>,
)
    ensures
        spec_target(true, explicit, explicit_head, heads, has_prefix, default_head) is None,
        !spec_deviation_warned(true, explicit, heads, has_prefix),
{
}

/// With an explicit tracking branch, a new branch starts at that remote
/// branch when the remote has it and at the default branch otherwise,
/// whatever the other remotes hold, and nothing is warned about.
pub proof fn law_explicit_tracking_start(
    explicit_head: Option<Seq<char>>,
    heads: Seq<RemoteHeads>,
    has_prefix: bool,
    default_head: Option<Seq<char>>,
)
    ensures
        spec_target(false, true, explicit_head, heads, has_prefix, default_head) == Some(explicit_head),
        !spec_deviation_warned(false, true, heads, has_prefix),
{
}

/// `--no-track` gives no tracking branch; `--track` gives exactly the
/// branch it names, without prefix, whatever the configuration says;
/// without either, nothing is tracked unless the configuration turns
/// tracking on.
pub proof fn law_tracking_requests(
    name: Seq<char>,
    remotes: Seq<RemoteName>,
    track: Option<TrackingConfig>,
    remote_name: RemoteName,
    remote_branch_name: BranchName,
)
    ensures
        spec_selected_tracking(name, TrackingSelection::Disabled, remotes, track) is None,
        spec_selected_tracking(
            name,
            TrackingSelection::Explicit { remote_name, remote_branch_name },
            remotes,
            track,
        ) == Some((remote_name@, remote_branch_name@, None::<Seq<char>>)),
        match track {
            None => true,
            Some(tc) => tc.default == TrackingDefault::NoTrack,
        } ==> spec_selected_tracking(name, TrackingSelection::Automatic, remotes, track) is None,
{
}

/// Automatic tracking uses the worktree's name on the remote, below the
/// configured prefix: with prefix `p`, the worktree `b` tracks `p/b`.
pub proof fn law_automatic_tracking_uses_prefix(
    name: Seq<char>,
    remotes: Seq<RemoteName>,
    tc: TrackingConfig,
    t: RemoteTrackingBranch,
)
    requires
        tc.default == TrackingDefault::Track,
        remotes.len() > 0,
        tracking_view(Some(t)) == spec_selected_tracking(
            name,
            TrackingSelection::Automatic,
            remotes,
            Some(tc),
        ),
    ensures
        match tc.default_remote_prefix {
            Some(p) => spec_upstream_name(t) == p@ + seq!['/'] + name,
            None => spec_upstream_name(t) == name,
        },
{
}

} // verus!
