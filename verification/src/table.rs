//! The cells of the status tables: what a status query found about a
//! repository or a worktree, as text. Drawing the tables is done by the
//! caller.

use vstd::prelude::*;

use comfy_table::modifiers::UTF8_ROUND_CORNERS;
use comfy_table::presets::UTF8_FULL;
use comfy_table::{Cell, Table};

use crate::repo::worktree::{char_is_whitespace, is_whitespace_char};
use crate::repo::{self, ProjectName, RemoteName, RemoteTrackingStatus, RepoChanges, RepoStatus};
use crate::text::{decimal, decimal_string, is_digit_char, lemma_decimal_digits, lemma_decimal_injective, substring};
use crate::{config, path, BranchName};

verus! {

/// Errors of building the status tables.
#[derive(Debug)]
pub enum Error {
    Config(config::Error),
    Repo(repo::Error),
    NotAGitDirectory,
    WorktreeWithoutDirectory { worktree: repo::WorktreeName },
    Path(path::Error),
    Fmt,
    InvalidWorktreeDirectory { path: String },
    RepoDoesNotExist { name: ProjectName },
    RepoNotGit { name: ProjectName },
    RepoOpenFailed { name: ProjectName, message: String },
    RepoStatusFailed { name: ProjectName, message: String },
}

/// `s` without its leading whitespace.
pub open spec fn trim_start_spec(s: Seq<char>) -> Seq<char>
    decreases s.len(),
{
    if s.len() > 0 && is_whitespace_char(s[0]) {
        trim_start_spec(s.drop_first())
    } else {
        s
    }
}

/// `s` without its trailing whitespace.
pub open spec fn trim_end_spec(s: Seq<char>) -> Seq<char>
    decreases s.len(),
{
    if s.len() > 0 && is_whitespace_char(s.last()) {
        trim_end_spec(s.drop_last())
    } else {
        s
    }
}

/// `s` without leading and trailing whitespace, as `str::trim` leaves it.
pub open spec fn trim_spec(s: Seq<char>) -> Seq<char> {
    trim_end_spec(trim_start_spec(s))
}

/// `s` without leading and trailing whitespace.
pub fn trim(s: &str) -> (r: String)
    ensures
        r@ == trim_spec(s@),
{
    let n = s.unicode_len();
    let mut i: usize = 0;
    assert(s@.subrange(0, n as int) =~= s@);
    while i < n && char_is_whitespace(s.get_char(i))
        invariant
            n == s@.len(),
            i <= n,
            trim_start_spec(s@.subrange(i as int, n as int)) == trim_start_spec(s@),
        decreases n - i,
    {
        assert(s@.subrange(i as int, n as int).drop_first() =~= s@.subrange(i + 1, n as int));
        i = i + 1;
    }
    assert(trim_start_spec(s@.subrange(i as int, n as int)) == s@.subrange(i as int, n as int));
    let mut j: usize = n;
    while j > i && char_is_whitespace(s.get_char(j - 1))
        invariant
            n == s@.len(),
            i <= j <= n,
            trim_end_spec(s@.subrange(i as int, j as int)) == trim_spec(s@),
        decreases j,
    {
        assert(s@.subrange(i as int, j as int).drop_last() =~= s@.subrange(i as int, j - 1));
        j = j - 1;
    }
    assert(trim_end_spec(s@.subrange(i as int, j as int)) == s@.subrange(i as int, j as int));
    substring(s, i, j)
}

/// The check mark of the tables.
pub open spec fn check_mark() -> Seq<char> {
    seq!['\u{2714}']
}

/// How a branch stands against its upstream, as the tables show it.
pub open spec fn spec_tracking_text(status: RemoteTrackingStatus) -> Seq<char> {
    match status {
        RemoteTrackingStatus::UpToDate => seq![' '] + check_mark(),
        RemoteTrackingStatus::Ahead(d) => " [+"@ + decimal(d as nat) + "]"@,
        RemoteTrackingStatus::Behind(d) => " [-"@ + decimal(d as nat) + "]"@,
        RemoteTrackingStatus::Diverged(d1, d2) => " [+"@ + decimal(d1 as nat) + "/-"@ + decimal(
            d2 as nat,
        ) + "]"@,
    }
}

/// How a branch stands against its upstream: ` ✔`, ` [+ahead]`,
/// ` [-behind]` or ` [+ahead/-behind]`.
pub fn tracking_text(status: RemoteTrackingStatus) -> (r: String)
    ensures
        r@ == spec_tracking_text(status),
{
    proof {
        reveal_strlit(" \u{2714}");
        assert(" \u{2714}"@ =~= seq![' '] + check_mark());
    }
    match status {
        RemoteTrackingStatus::UpToDate => " \u{2714}".to_owned(),
        RemoteTrackingStatus::Ahead(d) => {
            let mut r = " [+".to_owned();
            r.append(decimal_string(d).as_str());
            r.append("]");
            r
        },
        RemoteTrackingStatus::Behind(d) => {
            let mut r = " [-".to_owned();
            r.append(decimal_string(d).as_str());
            r.append("]");
            r
        },
        RemoteTrackingStatus::Diverged(d1, d2) => {
            let mut r = " [+".to_owned();
            r.append(decimal_string(d1).as_str());
            r.append("/-");
            r.append(decimal_string(d2).as_str());
            r.append("]");
            r
        },
    }
}

/// The line of a branch in the repository table.
pub open spec fn spec_branch_line(branch: BranchName, upstream: Option<(BranchName, RemoteTrackingStatus)>) -> Seq<char> {
    "branch: "@ + branch@ + match upstream {
        None => " <!local>"@,
        Some((remote_branch, status)) => " <"@ + remote_branch@ + ">"@ + spec_tracking_text(status),
    } + seq!['\n']
}

/// The line of a branch in the repository table:
/// `branch: <name> <<upstream>><status>`, or `branch: <name> <!local>`.
pub fn branch_line(branch: &BranchName, upstream: &Option<(BranchName, RemoteTrackingStatus)>) -> (r: String)
    ensures
        r@ == spec_branch_line(*branch, *upstream),
{
    proof {
        reveal_strlit("\n");
        assert("\n"@ =~= seq!['\n']);
    }
    let mut r = "branch: ".to_owned();
    r.append(branch.as_str());
    match upstream {
        None => r.append(" <!local>"),
        Some((remote_branch, status)) => {
            r.append(" <");
            r.append(remote_branch.as_str());
            r.append(">");
            r.append(tracking_text(*status).as_str());
        },
    }
    r.append("\n");
    r
}

/// The lines of all branches, one after the other.
pub open spec fn spec_branch_lines(branches: Seq<(BranchName, Option<(BranchName, RemoteTrackingStatus)>)>) -> Seq<char>
    decreases branches.len(),
{
    if branches.len() == 0 {
        Seq::empty()
    } else {
        spec_branch_lines(branches.drop_last()) + spec_branch_line(
            branches.last().0,
            branches.last().1,
        )
    }
}

/// The branches cell of the repository table: the line of each branch,
/// trimmed.
pub fn branches_cell(branches: &Vec<(BranchName, Option<(BranchName, RemoteTrackingStatus)>)>) -> (r: String)
    ensures
        r@ == trim_spec(spec_branch_lines(branches@)),
{
    let mut acc = String::new();
    let mut i: usize = 0;
    while i < branches.len()
        invariant
            i <= branches.len(),
            acc@ == spec_branch_lines(branches@.subrange(0, i as int)),
        decreases branches.len() - i,
    {
        assert(branches@.subrange(0, i + 1).drop_last() =~= branches@.subrange(0, i as int));
        let line = branch_line(&branches[i].0, &branches[i].1);
        acc.append(line.as_str());
        i = i + 1;
    }
    assert(branches@.subrange(0, branches.len() as int) =~= branches@);
    trim(acc.as_str())
}

/// The names of all remotes, each on a line of its own.
pub open spec fn spec_remote_lines(remotes: Seq<RemoteName>) -> Seq<char>
    decreases remotes.len(),
{
    if remotes.len() == 0 {
        Seq::empty()
    } else {
        spec_remote_lines(remotes.drop_last()) + remotes.last()@ + seq!['\n']
    }
}

/// The remotes cell of the repository table: one remote per line, trimmed.
pub fn remotes_cell(remotes: &Vec<RemoteName>) -> (r: String)
    ensures
        r@ == trim_spec(spec_remote_lines(remotes@)),
{
    proof {
        reveal_strlit("\n");
        assert("\n"@ =~= seq!['\n']);
    }
    let mut acc = String::new();
    let mut i: usize = 0;
    while i < remotes.len()
        invariant
            i <= remotes.len(),
            acc@ == spec_remote_lines(remotes@.subrange(0, i as int)),
            "\n"@ == seq!['\n'],
        decreases remotes.len() - i,
    {
        assert(remotes@.subrange(0, i + 1).drop_last() =~= remotes@.subrange(0, i as int));
        acc.append(remotes[i].as_str());
        acc.append("\n");
        i = i + 1;
    }
    assert(remotes@.subrange(0, remotes.len() as int) =~= remotes@);
    trim(acc.as_str())
}

/// The text of the changes of a working tree: a line for new, modified and
/// deleted files each, where there are any, trimmed; a check mark when
/// nothing changed.
pub open spec fn spec_changes_text(changes: Option<RepoChanges>) -> Seq<char> {
    match changes {
        None => check_mark(),
        Some(c) => trim_spec(
            (if c.files_new > 0 { "New: "@ + decimal(c.files_new as nat) + seq!['\n'] } else { Seq::empty() })
                + (if c.files_modified > 0 { "Modified: "@ + decimal(c.files_modified as nat) + seq!['\n'] } else { Seq::empty() })
                + (if c.files_deleted > 0 { "Deleted: "@ + decimal(c.files_deleted as nat) + seq!['\n'] } else { Seq::empty() }),
        ),
    }
}

/// One line of the changes text.
fn count_line(label: &str, n: usize) -> (r: String)
    ensures
        r@ == label@ + decimal(n as nat) + seq!['\n'],
{
    proof {
        reveal_strlit("\n");
        assert("\n"@ =~= seq!['\n']);
    }
    let mut r = label.to_owned();
    r.append(decimal_string(n).as_str());
    r.append("\n");
    r
}

/// The text of the changes of a working tree.
pub fn changes_text(changes: Option<RepoChanges>) -> (r: String)
    ensures
        r@ == spec_changes_text(changes),
{
    proof {
        reveal_strlit("\u{2714}");
        assert("\u{2714}"@ =~= check_mark());
    }
    match changes {
        None => "\u{2714}".to_owned(),
        Some(c) => {
            let mut out = String::new();
            if c.files_new > 0 {
                out.append(count_line("New: ", c.files_new).as_str());
            }
            if c.files_modified > 0 {
                out.append(count_line("Modified: ", c.files_modified).as_str());
            }
            if c.files_deleted > 0 {
                out.append(count_line("Deleted: ", c.files_deleted).as_str());
            }
            trim(out.as_str())
        },
    }
}

/// The row of a repository in the repository table: its name, whether it
/// is a worktree setup, its changes, its branches, its head, its remotes.
/// A worktree setup shows neither changes nor head.
pub open spec fn spec_repo_row(name: Option<Seq<char>>, worktree_setup: bool, status: RepoStatus) -> Seq<Seq<char>> {
    seq![
        match name {
            Some(n) => n,
            None => "unknown"@,
        },
        if worktree_setup { check_mark() } else { Seq::empty() },
        if worktree_setup { Seq::empty() } else { spec_changes_text(status.changes) },
        trim_spec(spec_branch_lines(status.branches@)),
        if worktree_setup {
            Seq::empty()
        } else {
            match status.head {
                Some(h) => h@,
                None => "Empty"@,
            }
        },
        trim_spec(spec_remote_lines(status.remotes@)),
    ]
}

/// The row of a repository in the repository table.
pub fn repo_row(name: Option<&ProjectName>, worktree_setup: bool, status: &RepoStatus) -> (r: Vec<String>)
    ensures
        r@.map_values(|s: String| s@) == spec_repo_row(
            match name {
                Some(n) => Some(n@),
                None => None,
            },
            worktree_setup,
            *status,
        ),
{
    proof {
        reveal_strlit("\u{2714}");
        assert("\u{2714}"@ =~= check_mark());
    }
    let mut r: Vec<String> = Vec::new();
    r.push(
        match name {
            Some(n) => n.as_str().to_owned(),
            None => "unknown".to_owned(),
        },
    );
    r.push(if worktree_setup { "\u{2714}".to_owned() } else { String::new() });
    r.push(if worktree_setup { String::new() } else { changes_text(status.changes) });
    r.push(branches_cell(&status.branches));
    r.push(
        if worktree_setup {
            String::new()
        } else {
            match &status.head {
                Some(h) => h.as_str().to_owned(),
                None => "Empty".to_owned(),
            }
        },
    );
    r.push(remotes_cell(&status.remotes));
    assert(r@.map_values(|s: String| s@) =~= spec_repo_row(
        match name {
            Some(n) => Some(n@),
            None => None,
        },
        worktree_setup,
        *status,
    ));
    r
}

/// How a worktree's branch stands against its upstream, in the worktree
/// table: nothing when in line, else `[+ahead]`, `[-behind]` or
/// `[+ahead/-behind]`.
pub open spec fn spec_ahead_behind_text(ahead: usize, behind: usize) -> Seq<char> {
    if ahead == 0 && behind == 0 {
        Seq::empty()
    } else if behind == 0 {
        " [+"@ + decimal(ahead as nat) + "]"@
    } else if ahead == 0 {
        " [-"@ + decimal(behind as nat) + "]"@
    } else {
        " [+"@ + decimal(ahead as nat) + "/-"@ + decimal(behind as nat) + "]"@
    }
}

/// The upstream cell of the worktree table: the upstream's name and how
/// the branch stands against it, on a line.
pub fn upstream_cell(upstream: Option<(&BranchName, usize, usize)>) -> (r: String)
    ensures
        match upstream {
            Some((name, ahead, behind)) => r@ == name@ + spec_ahead_behind_text(ahead, behind) + seq!['\n'],
            None => r@ == Seq::<char>::empty(),
        },
{
    proof {
        reveal_strlit("\n");
        assert("\n"@ =~= seq!['\n']);
    }
    match upstream {
        None => String::new(),
        Some((name, ahead, behind)) => {
            let mut r = name.as_str().to_owned();
            if ahead == 0 && behind == 0 {
            } else if behind == 0 {
                r.append(" [+");
                r.append(decimal_string(ahead).as_str());
                r.append("]");
            } else if ahead == 0 {
                r.append(" [-");
                r.append(decimal_string(behind).as_str());
                r.append("]");
            } else {
                r.append(" [+");
                r.append(decimal_string(ahead).as_str());
                r.append("/-");
                r.append(decimal_string(behind).as_str());
                r.append("]");
            }
            r.append("\n");
            r
        },
    }
}

/// The header of the repository table.
pub fn repo_table_header() -> (r: Vec<&'static str>)
    ensures
        r@.map_values(|s: &str| s@) == seq!["Repo"@, "Worktree"@, "Status"@, "Branches"@, "HEAD"@, "Remotes"@],
{
    let r = vec!["Repo", "Worktree", "Status", "Branches", "HEAD", "Remotes"];
    assert(r@.map_values(|s: &str| s@) =~= seq!["Repo"@, "Worktree"@, "Status"@, "Branches"@, "HEAD"@, "Remotes"@]);
    r
}

/// The header of the worktree table.
pub fn worktree_table_header() -> (r: Vec<&'static str>)
    ensures
        r@.map_values(|s: &str| s@) == seq!["Worktree"@, "Status"@, "Branch"@, "Remote branch"@],
{
    let r = vec!["Worktree", "Status", "Branch", "Remote branch"];
    assert(r@.map_values(|s: &str| s@) =~= seq!["Worktree"@, "Status"@, "Branch"@, "Remote branch"@]);
    r
}

/// The rows of a table, each cell by its text.
pub open spec fn cells_view(rows: Seq<Vec<String>>) -> Seq<Seq<Seq<char>>> {
    rows.map_values(|row: Vec<String>| row@.map_values(|c: String| c@))
}

/// The text of a table with rounded UTF-8 borders, a header row of
/// `header` and the rows `rows`, as comfy-table draws it.
pub uninterp spec fn spec_render_table(header: Seq<Seq<char>>, rows: Seq<Seq<Seq<char>>>) -> Seq<char>;

/// Draws a table with comfy-table: rounded UTF-8 borders, the header
/// `header`, then `rows`. The table is drawn as for no terminal, so that
/// neither the terminal's width nor its styling enters the result; with
/// cells that carry no style and no width constraints, comfy-table draws
/// the same text either way.
#[verifier::external_body]
fn render_table(header: Vec<String>, rows: Vec<Vec<String>>) -> (r: String)
    ensures
        r@ == spec_render_table(header@.map_values(|c: String| c@), cells_view(rows@)),
{
    let mut table = Table::new();
    table
        .force_no_tty()
        .load_preset(UTF8_FULL)
        .apply_modifier(UTF8_ROUND_CORNERS)
        .set_header(header.into_iter().map(Cell::new).collect::<Vec<_>>())
        .add_rows(rows);
    table.to_string()
}

/// The header of the repository table.
pub open spec fn repo_header_spec() -> Seq<Seq<char>> {
    seq!["Repo"@, "Worktree"@, "Status"@, "Branches"@, "HEAD"@, "Remotes"@]
}

/// The header of the worktree table.
pub open spec fn worktree_header_spec() -> Seq<Seq<char>> {
    seq!["Worktree"@, "Status"@, "Branch"@, "Remote branch"@]
}

/// The cells of `header` as owned strings.
fn owned_cells(header: Vec<&'static str>) -> (r: Vec<String>)
    ensures
        r@.map_values(|c: String| c@) == header@.map_values(|s: &str| s@),
{
    let mut r: Vec<String> = Vec::new();
    let mut i: usize = 0;
    while i < header.len()
        invariant
            i <= header.len(),
            r@.map_values(|c: String| c@) == header@.subrange(0, i as int).map_values(|s: &str| s@),
        decreases header.len() - i,
    {
        let ghost before = r@;
        r.push(header[i].to_owned());
        proof {
            assert(r@.map_values(|c: String| c@) =~= before.map_values(|c: String| c@).push(header@[i as int]@));
            assert(header@.subrange(0, i + 1).map_values(|s: &str| s@)
                =~= header@.subrange(0, i as int).map_values(|s: &str| s@).push(header@[i as int]@));
        }
        i = i + 1;
    }
    assert(header@.subrange(0, i as int) =~= header@);
    r
}

/// The status table of repositories: one row per repository, as
/// `repo_row` gives it, under the repository header.
pub fn repo_status_table(rows: Vec<Vec<String>>) -> (r: String)
    ensures
        r@ == spec_render_table(repo_header_spec(), cells_view(rows@)),
{
    render_table(owned_cells(repo_table_header()), rows)
}

/// The status table of worktrees: for each worktree its name, its
/// changes, its branch and its upstream, under the worktree header.
pub fn worktree_status_table(rows: Vec<Vec<String>>) -> (r: String)
    ensures
        r@ == spec_render_table(worktree_header_spec(), cells_view(rows@)),
{
    render_table(owned_cells(worktree_table_header()), rows)
}

proof fn lemma_trim_end_prefix(s: Seq<char>)
    ensures
        trim_end_spec(s).len() <= s.len(),
        trim_end_spec(s) == s.subrange(0, trim_end_spec(s).len() as int),
    decreases s.len(),
{
    if s.len() > 0 && is_whitespace_char(s.last()) {
        lemma_trim_end_prefix(s.drop_last());
        assert(s.drop_last().subrange(0, trim_end_spec(s).len() as int) =~= s.subrange(
            0,
            trim_end_spec(s).len() as int,
        ));
    } else {
        assert(s.subrange(0, s.len() as int) =~= s);
    }
}

proof fn lemma_trim_end_idempotent(s: Seq<char>)
    ensures
        trim_end_spec(trim_end_spec(s)) == trim_end_spec(s),
    decreases s.len(),
{
    if s.len() > 0 && is_whitespace_char(s.last()) {
        lemma_trim_end_idempotent(s.drop_last());
    }
}

proof fn lemma_trim_start_result(s: Seq<char>)
    ensures
        trim_start_spec(s).len() > 0 ==> !is_whitespace_char(trim_start_spec(s)[0]),
    decreases s.len(),
{
    if s.len() > 0 && is_whitespace_char(s[0]) {
        lemma_trim_start_result(s.drop_first());
    }
}

/// Trimming twice is trimming once.
pub proof fn law_trim_idempotent(s: Seq<char>)
    ensures
        trim_spec(trim_spec(s)) == trim_spec(s),
{
    let t = trim_start_spec(s);
    let e = trim_end_spec(t);
    lemma_trim_start_result(s);
    lemma_trim_end_prefix(t);
    if e.len() > 0 {
        assert(e[0] == t[0]);
    }
    assert(trim_start_spec(e) == e);
    lemma_trim_end_idempotent(t);
}

/// A row of the repository table has a cell for each column of its header.
pub proof fn law_repo_row_fits_header(name: Option<Seq<char>>, worktree_setup: bool, status: RepoStatus)
    ensures
        spec_repo_row(name, worktree_setup, status).len() == 6,
{
}

/// The texts of the statuses, character by character.
proof fn lemma_tracking_text_shape(s: RemoteTrackingStatus)
    ensures
        match s {
            RemoteTrackingStatus::UpToDate => spec_tracking_text(s) == seq![' ', '\u{2714}'],
            RemoteTrackingStatus::Ahead(d) => spec_tracking_text(s) == seq![' ', '[', '+'] + decimal(d as nat)
                + seq![']'],
            RemoteTrackingStatus::Behind(d) => spec_tracking_text(s) == seq![' ', '[', '-'] + decimal(d as nat)
                + seq![']'],
            RemoteTrackingStatus::Diverged(a, b) => spec_tracking_text(s) == seq![' ', '[', '+'] + decimal(
                a as nat,
            ) + seq!['/', '-'] + decimal(b as nat) + seq![']'],
        },
{
    reveal_strlit(" [+");
    reveal_strlit(" [-");
    reveal_strlit("]");
    reveal_strlit("/-");
    match s {
        RemoteTrackingStatus::UpToDate => {
            assert(spec_tracking_text(s) =~= seq![' ', '\u{2714}']);
        },
        RemoteTrackingStatus::Ahead(d) => {
            assert(spec_tracking_text(s) =~= seq![' ', '[', '+'] + decimal(d as nat) + seq![']']);
        },
        RemoteTrackingStatus::Behind(d) => {
            assert(spec_tracking_text(s) =~= seq![' ', '[', '-'] + decimal(d as nat) + seq![']']);
        },
        RemoteTrackingStatus::Diverged(a, b) => {
            assert(spec_tracking_text(s) =~= seq![' ', '[', '+'] + decimal(a as nat) + seq!['/', '-'] + decimal(
                b as nat,
            ) + seq![']']);
        },
    }
}

/// Only a branch in line with its upstream is shown with the check mark:
/// a branch ahead, behind or diverged never is.
pub proof fn law_check_mark_only_when_up_to_date(s: RemoteTrackingStatus)
    ensures
        spec_tracking_text(s).contains('\u{2714}') <==> s is UpToDate,
{
    lemma_tracking_text_shape(s);
    let t = spec_tracking_text(s);
    match s {
        RemoteTrackingStatus::UpToDate => {
            assert(t[1] == '\u{2714}');
        },
        RemoteTrackingStatus::Ahead(d) => {
            lemma_decimal_digits(d as nat);
            assert forall|i: int| 0 <= i < t.len() implies t[i] != '\u{2714}' by {
                if 3 <= i < t.len() - 1 {
                    assert(t[i] == decimal(d as nat)[i - 3]);
                }
            }
        },
        RemoteTrackingStatus::Behind(d) => {
            lemma_decimal_digits(d as nat);
            assert forall|i: int| 0 <= i < t.len() implies t[i] != '\u{2714}' by {
                if 3 <= i < t.len() - 1 {
                    assert(t[i] == decimal(d as nat)[i - 3]);
                }
            }
        },
        RemoteTrackingStatus::Diverged(a, b) => {
            lemma_decimal_digits(a as nat);
            lemma_decimal_digits(b as nat);
            let la = decimal(a as nat).len() as int;
            assert forall|i: int| 0 <= i < t.len() implies t[i] != '\u{2714}' by {
                if 3 <= i < 3 + la {
                    assert(t[i] == decimal(a as nat)[i - 3]);
                } else if 5 + la <= i < t.len() - 1 {
                    assert(t[i] == decimal(b as nat)[i - 5 - la]);
                }
            }
        },
    }
}

/// How a branch stands against its upstream can be read back from its
/// text: distinct statuses, and distinct counts of commits ahead or
/// behind, are shown differently.
pub proof fn law_tracking_texts_distinct(s1: RemoteTrackingStatus, s2: RemoteTrackingStatus)
    ensures
        spec_tracking_text(s1) == spec_tracking_text(s2) ==> s1 == s2,
{
    lemma_tracking_text_shape(s1);
    lemma_tracking_text_shape(s2);
    let t1 = spec_tracking_text(s1);
    let t2 = spec_tracking_text(s2);
    if t1 == t2 {
        assert(t1[1] == t2[1]);
        match (s1, s2) {
            (RemoteTrackingStatus::UpToDate, RemoteTrackingStatus::UpToDate) => {},
            (RemoteTrackingStatus::UpToDate, _) => {
                assert(t1[1] != t2[1]);
            },
            (_, RemoteTrackingStatus::UpToDate) => {
                assert(t1[1] != t2[1]);
            },
            (RemoteTrackingStatus::Ahead(d), RemoteTrackingStatus::Ahead(e)) => {
                assert(t1.subrange(3, t1.len() - 1) =~= decimal(d as nat));
                assert(t2.subrange(3, t2.len() - 1) =~= decimal(e as nat));
                lemma_decimal_injective(d as nat, e as nat);
            },
            (RemoteTrackingStatus::Behind(d), RemoteTrackingStatus::Behind(e)) => {
                assert(t1.subrange(3, t1.len() - 1) =~= decimal(d as nat));
                assert(t2.subrange(3, t2.len() - 1) =~= decimal(e as nat));
                lemma_decimal_injective(d as nat, e as nat);
            },
            (RemoteTrackingStatus::Ahead(_), RemoteTrackingStatus::Behind(_)) => {
                assert(t1[2] != t2[2]);
            },
            (RemoteTrackingStatus::Behind(_), RemoteTrackingStatus::Ahead(_)) => {
                assert(t1[2] != t2[2]);
            },
            (RemoteTrackingStatus::Behind(_), RemoteTrackingStatus::Diverged(_, _)) => {
                assert(t1[2] != t2[2]);
            },
            (RemoteTrackingStatus::Diverged(_, _), RemoteTrackingStatus::Behind(_)) => {
                assert(t1[2] != t2[2]);
            },
            (RemoteTrackingStatus::Ahead(d), RemoteTrackingStatus::Diverged(a, b)) => {
                lemma_ahead_not_diverged(d, a, b);
            },
            (RemoteTrackingStatus::Diverged(a, b), RemoteTrackingStatus::Ahead(d)) => {
                lemma_ahead_not_diverged(d, a, b);
            },
            (RemoteTrackingStatus::Diverged(a, b), RemoteTrackingStatus::Diverged(c, e)) => {
                lemma_diverged_injective(a, b, c, e);
            },
        }
    }
}

/// A branch ahead is never shown as diverged.
proof fn lemma_ahead_not_diverged(d: usize, a: usize, b: usize)
    ensures
        spec_tracking_text(RemoteTrackingStatus::Ahead(d)) != spec_tracking_text(RemoteTrackingStatus::Diverged(a, b)),
{
    lemma_tracking_text_shape(RemoteTrackingStatus::Ahead(d));
    lemma_tracking_text_shape(RemoteTrackingStatus::Diverged(a, b));
    lemma_decimal_digits(d as nat);
    lemma_decimal_digits(a as nat);
    lemma_decimal_digits(b as nat);
    let t1 = spec_tracking_text(RemoteTrackingStatus::Ahead(d));
    let t2 = spec_tracking_text(RemoteTrackingStatus::Diverged(a, b));
    let la = decimal(a as nat).len() as int;
    if t1 == t2 {
        assert(t1.len() == 4 + decimal(d as nat).len());
        assert(t2.len() == 6 + la + decimal(b as nat).len());
        assert(la < decimal(d as nat).len());
        assert(t2[3 + la] == '/');
        assert(t1[3 + la] == decimal(d as nat)[la]);
        assert(is_digit_char(decimal(d as nat)[la]));
    }
}

/// Two diverged branches are shown alike only with the same counts.
proof fn lemma_diverged_injective(a: usize, b: usize, c: usize, e: usize)
    ensures
        spec_tracking_text(RemoteTrackingStatus::Diverged(a, b)) == spec_tracking_text(
            RemoteTrackingStatus::Diverged(c, e),
        ) ==> a == c && b == e,
{
    lemma_tracking_text_shape(RemoteTrackingStatus::Diverged(a, b));
    lemma_tracking_text_shape(RemoteTrackingStatus::Diverged(c, e));
    lemma_decimal_digits(a as nat);
    lemma_decimal_digits(b as nat);
    lemma_decimal_digits(c as nat);
    lemma_decimal_digits(e as nat);
    let t1 = spec_tracking_text(RemoteTrackingStatus::Diverged(a, b));
    let t2 = spec_tracking_text(RemoteTrackingStatus::Diverged(c, e));
    let la = decimal(a as nat).len() as int;
    let lc = decimal(c as nat).len() as int;
    if t1 == t2 {
        if la < lc {
            assert(t1[3 + la] == '/');
            assert(t2[3 + la] == decimal(c as nat)[la]);
            assert(is_digit_char(decimal(c as nat)[la]));
        } else if lc < la {
            assert(t2[3 + lc] == '/');
            assert(t1[3 + lc] == decimal(a as nat)[lc]);
            assert(is_digit_char(decimal(a as nat)[lc]));
        } else {
            assert(t1.subrange(3, 3 + la) =~= decimal(a as nat));
            assert(t2.subrange(3, 3 + lc) =~= decimal(c as nat));
            lemma_decimal_injective(a as nat, c as nat);
            assert(t1.subrange(5 + la, t1.len() - 1) =~= decimal(b as nat));
            assert(t2.subrange(5 + lc, t2.len() - 1) =~= decimal(e as nat));
            lemma_decimal_injective(b as nat, e as nat);
        }
    }
}

} // verus!
