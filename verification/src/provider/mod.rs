//! Forges that repositories can be listed from: what a project listing
//! holds, which projects a query selects, how the listings of several
//! queries are merged and grouped by namespace, and the URLs of the queries.
//! The HTTP requests and the JSON decoding are done by the caller.

pub mod gitea;
pub mod github;
pub mod gitlab;

use vstd::prelude::*;
use vstd::std_specs::convert::FromSpecImpl;

pub use github::Github;
pub use gitlab::Gitlab;

use crate::repo::{self, RemoteName, RemoteUrl, WorktreeSetup};
use crate::text::{str_concat, str_eq};
use crate::{auth, config};

verus! {

broadcast use repo::remote::RemoteName::lemma_spec_new_view, repo::remote::RemoteUrl::lemma_spec_new_view;

/// Whether projects are always cloned over SSH.
#[derive(Clone, Copy, PartialEq, Eq, Debug, Structural)]
pub enum ProtocolConfig {
    Default,
    ForceSsh,
}

impl ProtocolConfig {
    pub fn force_ssh(&self) -> (r: bool)
        ensures
            r == (*self == ProtocolConfig::ForceSsh),
    {
        match self {
            ProtocolConfig::Default => false,
            ProtocolConfig::ForceSsh => true,
        }
    }
}

/// A URL of a forge API.
pub struct Url(String);

impl View for Url {
    type V = Seq<char>;

    closed spec fn view(&self) -> Seq<char> {
        self.0@
    }
}

impl Url {
    pub fn new(from: String) -> (r: Self)
        ensures
            r@ == from@,
    {
        Self(from)
    }

    pub fn new_static(from: &'static str) -> (r: Self)
        ensures
            r@ == from@,
    {
        Self(from.to_owned())
    }

    pub fn as_str(&self) -> (r: &str)
        ensures
            r@ == self@,
    {
        self.0.as_str()
    }
}

/// A forge user.
#[derive(Clone)]
pub struct User(String);

impl View for User {
    type V = Seq<char>;

    closed spec fn view(&self) -> Seq<char> {
        self.0@
    }
}

impl User {
    pub fn new(name: String) -> (r: Self)
        ensures
            r@ == name@,
    {
        Self(name)
    }

    pub fn from_config(value: config::User) -> (r: Self)
        ensures
            r@ == value@,
    {
        Self(value.into_username())
    }

    pub fn as_str(&self) -> (r: &str)
        ensures
            r@ == self@,
    {
        self.0.as_str()
    }
}

/// A forge group or organisation.
#[derive(Clone)]
pub struct Group(String);

impl View for Group {
    type V = Seq<char>;

    closed spec fn view(&self) -> Seq<char> {
        self.0@
    }
}

impl Group {
    pub fn new(name: String) -> (r: Self)
        ensures
            r@ == name@,
    {
        Self(name)
    }

    pub fn from_config(value: config::Group) -> (r: Self)
        ensures
            r@ == value@,
    {
        Self(value.into_groupname())
    }

    pub fn as_str(&self) -> (r: &str)
        ensures
            r@ == self@,
    {
        self.0.as_str()
    }
}

/// The remote name given to cloned projects when none is configured.
pub const DEFAULT_REMOTE_NAME: &'static str = "origin";

/// Errors of forge queries.
#[derive(Debug)]
pub enum Error {
    Response(String),
    Provider(String),
}

/// A forge kind.
#[derive(Debug, Clone, Copy, PartialEq, Eq, Structural)]
pub enum RemoteProvider {
    Github,
    Gitlab,
}

impl From<config::RemoteProvider> for RemoteProvider {
    fn from(other: config::RemoteProvider) -> Self {
        match other {
            config::RemoteProvider::Github => Self::Github,
            config::RemoteProvider::Gitlab => Self::Gitlab,
        }
    }
}

impl FromSpecImpl<config::RemoteProvider> for RemoteProvider {
    open spec fn obeys_from_spec() -> bool {
        true
    }

    open spec fn from_spec(other: config::RemoteProvider) -> Self {
        match other {
            config::RemoteProvider::Github => Self::Github,
            config::RemoteProvider::Gitlab => Self::Gitlab,
        }
    }
}

/// The result of `url_escape::encode_component` on `s`.
pub uninterp spec fn spec_escape(s: Seq<char>) -> Seq<char>;

/// Percent-encodes `s` for use as one component of a URL, with
/// `url_escape::encode_component`. The contract names the result.
#[verifier::external_body]
pub fn escape(s: &str) -> (r: String)
    ensures
        r@ == spec_escape(s@),
{
    url_escape::encode_component(s).to_string()
}

/// The result of `parse_link_header::parse` on a `link` header, reduced to
/// the raw URI of the link whose `rel` is `rel`: `Err` with the text of the
/// parse error, `Ok(None)` when no link has that `rel`.
pub uninterp spec fn spec_link_for_rel(link: Seq<char>, rel: Seq<char>) -> Result<Option<Seq<char>>, Seq<char>>;

/// `parse_link_header::parse(link)`, then the raw URI of the link whose
/// `rel` parameter is `rel`. The contract names the result.
#[verifier::external_body]
fn link_for_rel(link: &str, rel: &str) -> (r: Result<Option<String>, String>)
    ensures
        match r {
            Ok(Some(u)) => spec_link_for_rel(link@, rel@) == Ok::<Option<Seq<char>>, Seq<char>>(Some(u@)),
            Ok(None) => spec_link_for_rel(link@, rel@) == Ok::<Option<Seq<char>>, Seq<char>>(None),
            Err(e) => spec_link_for_rel(link@, rel@) == Err::<Option<Seq<char>>, Seq<char>>(e@),
        },
{
    match parse_link_header::parse(link) {
        Ok(links) => Ok(links.get(&Some(rel.to_owned())).map(|l| l.raw_uri.clone())),
        Err(e) => Err(e.to_string()),
    }
}

/// The URL of the next page of a paged listing, from the response's `link`
/// header: the link with `rel="next"`, if any.
pub fn next_page_url(link: &str) -> (r: Result<Option<Url>, String>)
    ensures
        match spec_link_for_rel(link@, "next"@) {
            Ok(Some(u)) => r matches Ok(Some(url)) && url@ == u,
            Ok(None) => r matches Ok(None),
            Err(e) => r matches Err(m) && m@ == e,
        },
{
    match link_for_rel(link, "next") {
        Ok(Some(u)) => Ok(Some(Url::new(u))),
        Ok(None) => Ok(None),
        Err(e) => Err(e),
    }
}

/// The name of a project on a forge.
#[derive(PartialEq, Eq, Debug)]
pub struct ProjectName(String);

impl View for ProjectName {
    type V = Seq<char>;

    closed spec fn view(&self) -> Seq<char> {
        self.0@
    }
}

impl ProjectName {
    pub fn new(from: String) -> (r: Self)
        ensures
            r@ == from@,
    {
        Self(from)
    }

    pub fn into_string(self) -> (r: String)
        ensures
            r@ == self@,
    {
        self.0
    }

    pub fn as_str(&self) -> (r: &str)
        ensures
            r@ == self@,
    {
        self.0.as_str()
    }

    pub fn from_repo(other: repo::ProjectName) -> (r: Self)
        ensures
            r@ == other@,
    {
        Self(other.into_string())
    }

    pub fn into_repo(self) -> (r: repo::ProjectName)
        ensures
            r@ == self@,
    {
        repo::ProjectName::new(self.0)
    }
}

/// The namespace of a project on a forge: the user or group path above it.
#[derive(PartialEq, Eq, Debug)]
pub struct ProjectNamespace(String);

impl View for ProjectNamespace {
    type V = Seq<char>;

    closed spec fn view(&self) -> Seq<char> {
        self.0@
    }
}

impl Clone for ProjectNamespace {
    fn clone(&self) -> (r: Self)
        ensures
            r@ == self@,
    {
        ProjectNamespace(self.0.clone())
    }
}

impl ProjectNamespace {
    pub fn new(from: String) -> (r: Self)
        ensures
            r@ == from@,
    {
        Self(from)
    }

    pub fn into_string(self) -> (r: String)
        ensures
            r@ == self@,
    {
        self.0
    }

    pub fn as_str(&self) -> (r: &str)
        ensures
            r@ == self@,
    {
        self.0.as_str()
    }

    pub fn from_repo(other: repo::ProjectNamespace) -> (r: Self)
        ensures
            r@ == other@,
    {
        Self(other.into_string())
    }

    pub fn into_repo(self) -> (r: repo::ProjectNamespace)
        ensures
            r@ == self@,
    {
        repo::ProjectNamespace::new(self.0)
    }
}

/// The view of an optional namespace.
pub open spec fn namespace_view(n: Option<ProjectNamespace>) -> Option<Seq<char>> {
    match n {
        Some(ns) => Some(ns@),
        None => None,
    }
}

/// A project that a forge listed.
pub trait Project: Sized {
    spec fn project_name(&self) -> Seq<char>;

    spec fn project_namespace(&self) -> Option<Seq<char>>;

    spec fn project_ssh_url(&self) -> Seq<char>;

    spec fn project_http_url(&self) -> Seq<char>;

    spec fn project_private(&self) -> bool;

    fn name(&self) -> (r: ProjectName)
        ensures
            r@ == self.project_name(),
    ;

    fn namespace(&self) -> (r: Option<ProjectNamespace>)
        ensures
            namespace_view(r) == self.project_namespace(),
    ;

    fn ssh_url(&self) -> (r: RemoteUrl)
        ensures
            r@ == self.project_ssh_url(),
    ;

    fn http_url(&self) -> (r: RemoteUrl)
        ensures
            r@ == self.project_http_url(),
    ;

    fn private(&self) -> (r: bool)
        ensures
            r == self.project_private(),
    ;

    /// The repository to clone this project into: one remote called
    /// `remote_name`, reached over SSH when SSH is forced or the project is
    /// private, over HTTPS otherwise.
    fn into_repo_config(
        self,
        remote_name: &RemoteName,
        worktree_setup: WorktreeSetup,
        protocol_config: ProtocolConfig,
    ) -> (r: repo::Repo)
        ensures
            r.name@ == self.project_name(),
            r.namespace_view() == self.project_namespace(),
            r.worktree_setup == (worktree_setup == WorktreeSetup::Worktree),
            r.remotes.len() == 1,
            r.remotes[0].name@ == remote_name@,
            (protocol_config == ProtocolConfig::ForceSsh || self.project_private()) ==> (
            r.remotes[0].url@ == self.project_ssh_url() && r.remotes[0].remote_type
                == repo::RemoteType::Ssh),
            !(protocol_config == ProtocolConfig::ForceSsh || self.project_private()) ==> (
            r.remotes[0].url@ == self.project_http_url() && r.remotes[0].remote_type
                == repo::RemoteType::Https),
    {
        let use_ssh = protocol_config.force_ssh() || self.private();
        let remote = repo::Remote {
            name: remote_name.clone(),
            url: if use_ssh {
                self.ssh_url()
            } else {
                self.http_url()
            },
            remote_type: if use_ssh {
                repo::RemoteType::Ssh
            } else {
                repo::RemoteType::Https
            },
        };
        let namespace = match self.namespace() {
            Some(ns) => Some(ns.into_repo()),
            None => None,
        };
        let mut remotes = Vec::new();
        remotes.push(remote);
        repo::Repo {
            name: self.name().into_repo(),
            namespace,
            worktree_setup: worktree_setup.is_worktree(),
            remotes,
        }
    }
}

/// Which projects a forge query selects: those of some users, those of some
/// groups, the requesting user's own, and those the requesting user can
/// access.
#[derive(Clone)]
pub struct Filter {
    users: Vec<User>,
    groups: Vec<Group>,
    owner: bool,
    access: bool,
}

impl Filter {
    pub closed spec fn spec_users(&self) -> Seq<User> {
        self.users@
    }

    pub closed spec fn spec_groups(&self) -> Seq<Group> {
        self.groups@
    }

    pub closed spec fn spec_owner(&self) -> bool {
        self.owner
    }

    pub closed spec fn spec_access(&self) -> bool {
        self.access
    }

    pub fn new(users: Vec<User>, groups: Vec<Group>, owner: bool, access: bool) -> (r: Self)
        ensures
            r.spec_users() == users@,
            r.spec_groups() == groups@,
            r.spec_owner() == owner,
            r.spec_access() == access,
    {
        Self { users, groups, owner, access }
    }

    /// The filter selects nothing.
    pub fn empty(&self) -> (r: bool)
        ensures
            r == (self.spec_users().len() == 0 && self.spec_groups().len() == 0
                && !self.spec_owner() && !self.spec_access()),
    {
        self.users.len() == 0 && self.groups.len() == 0 && !self.owner && !self.access
    }

    pub fn users(&self) -> (r: &Vec<User>)
        ensures
            r@ == self.spec_users(),
    {
        &self.users
    }

    pub fn groups(&self) -> (r: &Vec<Group>)
        ensures
            r@ == self.spec_groups(),
    {
        &self.groups
    }

    pub fn owner(&self) -> (r: bool)
        ensures
            r == self.spec_owner(),
    {
        self.owner
    }

    pub fn access(&self) -> (r: bool)
        ensures
            r == self.spec_access(),
    {
        self.access
    }
}

/// One listing of projects that a forge is asked for.
pub enum ForgeQuery {
    /// The projects of the user that the token belongs to.
    OwnProjects,
    /// The projects that the token gives access to.
    Accessible,
    /// The projects of a user.
    UserProjects(User),
    /// The projects of a group.
    GroupProjects(Group),
}

/// A `ForgeQuery` with users and groups taken by their names.
pub enum ForgeQueryView {
    OwnProjects,
    Accessible,
    UserProjects(Seq<char>),
    GroupProjects(Seq<char>),
}

impl View for ForgeQuery {
    type V = ForgeQueryView;

    open spec fn view(&self) -> ForgeQueryView {
        match self {
            ForgeQuery::OwnProjects => ForgeQueryView::OwnProjects,
            ForgeQuery::Accessible => ForgeQueryView::Accessible,
            ForgeQuery::UserProjects(u) => ForgeQueryView::UserProjects(u@),
            ForgeQuery::GroupProjects(g) => ForgeQueryView::GroupProjects(g@),
        }
    }
}

/// The queries views, in order.
pub open spec fn query_views(queries: Seq<ForgeQuery>) -> Seq<ForgeQueryView> {
    queries.map_values(|q: ForgeQuery| q@)
}

/// The listings a filter asks for, in the order in which they are made:
/// the own projects where `owner` is set, the accessible ones where
/// `access` is set, then those of each user and of each group. The filters
/// add up; a filter that selects nothing asks for nothing.
pub open spec fn spec_forge_queries(owner: bool, access: bool, users: Seq<Seq<char>>, groups: Seq<Seq<char>>) -> Seq<ForgeQueryView> {
    (if owner { seq![ForgeQueryView::OwnProjects] } else { Seq::empty() })
        + (if access { seq![ForgeQueryView::Accessible] } else { Seq::empty() })
        + users.map_values(|u: Seq<char>| ForgeQueryView::UserProjects(u))
        + groups.map_values(|g: Seq<char>| ForgeQueryView::GroupProjects(g))
}

/// Filters add up: each selected user and group is asked for, the own
/// and the accessible projects are asked for exactly where they are
/// selected, and a filter that selects nothing asks for nothing.
pub proof fn law_filters_add_up(owner: bool, access: bool, users: Seq<Seq<char>>, groups: Seq<Seq<char>>)
    ensures
        forall|i: int| 0 <= i < users.len() ==> spec_forge_queries(owner, access, users, groups).contains(
            ForgeQueryView::UserProjects(#[trigger] users[i]),
        ),
        forall|i: int| 0 <= i < groups.len() ==> spec_forge_queries(owner, access, users, groups).contains(
            ForgeQueryView::GroupProjects(#[trigger] groups[i]),
        ),
        spec_forge_queries(owner, access, users, groups).contains(ForgeQueryView::OwnProjects) == owner,
        spec_forge_queries(owner, access, users, groups).contains(ForgeQueryView::Accessible) == access,
        !owner && !access && users.len() == 0 && groups.len() == 0 ==> spec_forge_queries(owner, access, users, groups).len() == 0,
{
    let q = spec_forge_queries(owner, access, users, groups);
    let k = (if owner { 1int } else { 0 }) + (if access { 1int } else { 0 });
    assert forall|i: int| 0 <= i < users.len() implies q.contains(ForgeQueryView::UserProjects(#[trigger] users[i])) by {
        assert(q[k + i] == ForgeQueryView::UserProjects(users[i]));
    }
    assert forall|i: int| 0 <= i < groups.len() implies q.contains(ForgeQueryView::GroupProjects(#[trigger] groups[i])) by {
        assert(q[k + users.len() + i] == ForgeQueryView::GroupProjects(groups[i]));
    }
    if owner {
        assert(q[0] == ForgeQueryView::OwnProjects);
    } else {
        assert forall|i: int| 0 <= i < q.len() implies q[i] != ForgeQueryView::OwnProjects by {}
    }
    if access {
        assert(q[k - 1] == ForgeQueryView::Accessible);
    } else {
        assert forall|i: int| 0 <= i < q.len() implies q[i] != ForgeQueryView::Accessible by {}
    }
}

/// The names of users.
pub open spec fn user_names(users: Seq<User>) -> Seq<Seq<char>> {
    users.map_values(|u: User| u@)
}

/// The names of groups.
pub open spec fn group_names(groups: Seq<Group>) -> Seq<Seq<char>> {
    groups.map_values(|g: Group| g@)
}

/// The listings `filter` asks for; see `spec_forge_queries`.
pub fn forge_queries(filter: &Filter) -> (r: Vec<ForgeQuery>)
    ensures
        query_views(r@) == spec_forge_queries(
            filter.spec_owner(),
            filter.spec_access(),
            user_names(filter.spec_users()),
            group_names(filter.spec_groups()),
        ),
        filter.spec_users().len() == 0 && filter.spec_groups().len() == 0 && !filter.spec_owner()
            && !filter.spec_access() ==> r.len() == 0,
{
    let mut r: Vec<ForgeQuery> = Vec::new();
    if filter.owner() {
        r.push(ForgeQuery::OwnProjects);
    }
    if filter.access() {
        r.push(ForgeQuery::Accessible);
    }
    let ghost head = query_views(r@);
    let users = filter.users();
    let mut i: usize = 0;
    while i < users.len()
        invariant
            i <= users.len(),
            users@ == filter.spec_users(),
            query_views(r@) == head + user_names(users@).subrange(0, i as int).map_values(
                |u: Seq<char>| ForgeQueryView::UserProjects(u),
            ),
            head.len() + i == r.len(),
        decreases users.len() - i,
    {
        let ghost before = r@;
        r.push(ForgeQuery::UserProjects(User::new(users[i].as_str().to_owned())));
        proof {
            assert(query_views(r@) =~= query_views(before).push(ForgeQueryView::UserProjects(users@[i as int]@)));
            assert(user_names(users@).subrange(0, i + 1).map_values(|u: Seq<char>| ForgeQueryView::UserProjects(u))
                =~= user_names(users@).subrange(0, i as int).map_values(|u: Seq<char>| ForgeQueryView::UserProjects(u))
                    .push(ForgeQueryView::UserProjects(users@[i as int]@)));
        }
        i = i + 1;
    }
    assert(user_names(users@).subrange(0, i as int) =~= user_names(users@));
    let ghost middle = query_views(r@);
    let groups = filter.groups();
    let mut j: usize = 0;
    while j < groups.len()
        invariant
            j <= groups.len(),
            groups@ == filter.spec_groups(),
            query_views(r@) == middle + group_names(groups@).subrange(0, j as int).map_values(
                |g: Seq<char>| ForgeQueryView::GroupProjects(g),
            ),
            middle.len() + j == r.len(),
        decreases groups.len() - j,
    {
        let ghost before = r@;
        r.push(ForgeQuery::GroupProjects(Group::new(groups[j].as_str().to_owned())));
        proof {
            assert(query_views(r@) =~= query_views(before).push(ForgeQueryView::GroupProjects(groups@[j as int]@)));
            assert(group_names(groups@).subrange(0, j + 1).map_values(|g: Seq<char>| ForgeQueryView::GroupProjects(g))
                =~= group_names(groups@).subrange(0, j as int).map_values(|g: Seq<char>| ForgeQueryView::GroupProjects(g))
                    .push(ForgeQueryView::GroupProjects(groups@[j as int]@)));
        }
        j = j + 1;
    }
    assert(group_names(groups@).subrange(0, j as int) =~= group_names(groups@));
    assert(query_views(r@) =~= spec_forge_queries(
        filter.spec_owner(),
        filter.spec_access(),
        user_names(filter.spec_users()),
        group_names(filter.spec_groups()),
    ));
    r
}

/// Adds the projects of the listing of `query` to `repos`: the own
/// projects come first and are taken as they are; the projects of any
/// other listing are added where no project of that name and namespace is
/// there yet.
pub fn add_listing<P: Project>(repos: &mut Vec<P>, query: &ForgeQuery, listing: Vec<P>)
    ensures
        query is OwnProjects ==> final(repos)@ == old(repos)@ + listing@,
        !(query is OwnProjects) ==> final(repos)@ == merged(old(repos)@, listing@),
{
    match query {
        ForgeQuery::OwnProjects => {
            let mut listing = listing;
            repos.append(&mut listing);
        },
        _ => merge_projects(repos, listing),
    }
}

/// The error of a failed listing: the message of the forge's reply, with
/// the group named where a group's projects were asked for.
pub fn query_error(query: &ForgeQuery, message: &str) -> (r: Error)
    ensures
        match query {
            ForgeQuery::GroupProjects(g) => r matches Error::Response(m) && m@ == "group \""@ + g@ + "\": "@ + message@,
            _ => r matches Error::Response(m) && m@ == message@,
        },
{
    match query {
        ForgeQuery::GroupProjects(g) => Error::Response(group_error_message(g, message)),
        _ => Error::Response(message.to_owned()),
    }
}

/// The error body of a forge API, reduced to its message.
pub trait JsonError: Sized {
    spec fn message(&self) -> Seq<char>;

    fn to_string(self) -> (r: String)
        ensures
            r@ == self.message(),
    ;
}

/// A failed forge API call: an error body the forge sent, or a message of
/// the request itself.
pub enum ApiError<T: JsonError> {
    Json(T),
    String(String),
}

impl<T: JsonError> ApiError<T> {
    pub fn from_message(s: String) -> (r: Self)
        ensures
            r matches ApiError::String(m) && m@ == s@,
    {
        ApiError::String(s)
    }

    /// The message of the failure: the forge's message, or the request's.
    pub fn into_message(self) -> (r: String)
        ensures
            match self {
                ApiError::Json(x) => r@ == x.message(),
                ApiError::String(s) => r@ == s@,
            },
    {
        match self {
            ApiError::Json(x) => x.to_string(),
            ApiError::String(s) => s,
        }
    }
}

/// The error of a listing of the projects of `group`:
/// `group "<group>": <message>`.
pub fn group_error_message(group: &Group, message: &str) -> (r: String)
    ensures
        r@ == "group \""@ + group@ + "\": "@ + message@,
{
    let mut r = str_concat("group \"", group.as_str());
    r.append("\": ");
    r.append(message);
    r
}

/// `p` has the name and namespace of `q`.
pub open spec fn same_project<P: Project>(p: P, q: P) -> bool {
    p.project_name() == q.project_name() && p.project_namespace() == q.project_namespace()
}

/// Some project of `repos` has the name and namespace of `p`.
pub open spec fn already_present<P: Project>(repos: Seq<P>, p: P) -> bool {
    exists|i: int| 0 <= i < repos.len() && same_project(#[trigger] repos[i], p)
}

/// `repos` followed by the projects of `new` that it does not hold yet, in
/// order; a project that occurs twice in `new` is taken once.
pub open spec fn merged<P: Project>(repos: Seq<P>, new: Seq<P>) -> Seq<P>
    decreases new.len(),
{
    if new.len() == 0 {
        repos
    } else {
        let next = if already_present(repos, new[0]) { repos } else { repos.push(new[0]) };
        merged(next, new.drop_first())
    }
}

/// Optional namespaces are equal.
fn namespace_eq(a: &Option<ProjectNamespace>, b: &Option<ProjectNamespace>) -> (r: bool)
    ensures
        r == (namespace_view(*a) == namespace_view(*b)),
{
    match (a, b) {
        (Some(x), Some(y)) => str_eq(x.as_str(), y.as_str()),
        (None, None) => true,
        _ => false,
    }
}

/// Whether a project of `repos` has the name and namespace of `p`.
fn is_present<P: Project>(repos: &Vec<P>, p: &P) -> (r: bool)
    ensures
        r == already_present(repos@, *p),
{
    let name = p.name();
    let namespace = p.namespace();
    let mut i: usize = 0;
    while i < repos.len()
        invariant
            i <= repos.len(),
            name@ == p.project_name(),
            namespace_view(namespace) == p.project_namespace(),
            forall|j: int| 0 <= j < i ==> !same_project(#[trigger] repos@[j], *p),
        decreases repos.len() - i,
    {
        if str_eq(repos[i].name().as_str(), name.as_str()) && namespace_eq(
            &repos[i].namespace(),
            &namespace,
        ) {
            assert(same_project(repos@[i as int], *p));
            return true;
        }
        i = i + 1;
    }
    false
}

/// Appends to `repos` the projects of `new` that it does not hold yet.
pub fn merge_projects<P: Project>(repos: &mut Vec<P>, new: Vec<P>)
    ensures
        final(repos)@ == merged(old(repos)@, new@),
{
    let ghost start = repos@;
    let mut rest = new;
    let ghost all = rest@;
    while rest.len() > 0
        invariant
            merged(start, all) == merged(repos@, rest@),
        decreases rest.len(),
    {
        let ghost before = rest@;
        let p = rest.remove(0);
        proof {
            assert(before[0] == p);
            assert(before.drop_first() =~= rest@);
        }
        let present = is_present(repos, &p);
        if !present {
            repos.push(p);
        }
    }
}

/// `r` is the repository that `into_repo_config` makes of `p`, with its
/// namespace taken off: one remote called `remote_name`, reached over SSH
/// when SSH is forced or the project is private, over HTTPS otherwise.
pub open spec fn is_repo_of_project<P: Project>(
    p: P,
    r: repo::Repo,
    remote_name: Seq<char>,
    worktree_setup: WorktreeSetup,
    protocol_config: ProtocolConfig,
) -> bool {
    &&& r.name@ == p.project_name()
    &&& r.namespace is None
    &&& r.worktree_setup == (worktree_setup == WorktreeSetup::Worktree)
    &&& r.remotes.len() == 1
    &&& r.remotes[0].name@ == remote_name
    &&& if protocol_config == ProtocolConfig::ForceSsh || p.project_private() {
        r.remotes[0].url@ == p.project_ssh_url() && r.remotes[0].remote_type == repo::RemoteType::Ssh
    } else {
        r.remotes[0].url@ == p.project_http_url() && r.remotes[0].remote_type == repo::RemoteType::Https
    }
}

/// The projects of a listing as repositories to clone, each beside its
/// namespace: the remote is called `remote_name`, `origin` when none is
/// given.
pub fn repos_of_projects<P: Project>(
    projects: Vec<P>,
    remote_name: Option<RemoteName>,
    worktree_setup: WorktreeSetup,
    protocol_config: ProtocolConfig,
) -> (r: Vec<(Option<ProjectNamespace>, repo::Repo)>)
    ensures
        r.len() == projects.len(),
        forall|i: int|
            0 <= i < projects.len() ==> {
                &&& namespace_view((#[trigger] r[i]).0) == projects[i].project_namespace()
                &&& is_repo_of_project(
                    projects[i],
                    r[i].1,
                    match remote_name {
                        Some(n) => n@,
                        None => DEFAULT_REMOTE_NAME@,
                    },
                    worktree_setup,
                    protocol_config,
                )
            },
{
    let remote_name = match remote_name {
        Some(n) => n,
        None => RemoteName::new_static(DEFAULT_REMOTE_NAME),
    };
    let mut r: Vec<(Option<ProjectNamespace>, repo::Repo)> = Vec::new();
    let mut rest = projects;
    let ghost all = rest@;
    let n = rest.len();
    while rest.len() > 0
        invariant
            n == all.len(),
            r.len() + rest.len() == n,
            rest@ == all.subrange(r.len() as int, n as int),
            forall|j: int|
                0 <= j < r.len() ==> {
                    &&& namespace_view((#[trigger] r[j]).0) == all[j].project_namespace()
                    &&& is_repo_of_project(all[j], r[j].1, remote_name@, worktree_setup, protocol_config)
                },
        decreases rest.len(),
    {
        let p = rest.remove(0);
        proof {
            assert(p == all[r.len() as int]);
        }
        let namespace = p.namespace();
        let mut repo = p.into_repo_config(&remote_name, worktree_setup, protocol_config);
        repo.remove_namespace();
        r.push((namespace, repo));
        proof {
            assert(rest@ =~= all.subrange(r.len() as int, n as int));
        }
    }
    r
}

/// The namespaces of a listing, by view.
pub open spec fn key_views(items: Seq<(Option<ProjectNamespace>, repo::Repo)>) -> Seq<Option<Seq<char>>> {
    items.map_values(|it: (Option<ProjectNamespace>, repo::Repo)| namespace_view(it.0))
}

/// The namespaces of `keys`, each once, in the order in which they first
/// occur.
pub open spec fn distinct_keys(keys: Seq<Option<Seq<char>>>) -> Seq<Option<Seq<char>>>
    decreases keys.len(),
{
    if keys.len() == 0 {
        Seq::empty()
    } else {
        let before = distinct_keys(keys.drop_last());
        if before.contains(keys.last()) {
            before
        } else {
            before.push(keys.last())
        }
    }
}

/// The repositories of a listing in namespace `key`, in order.
pub open spec fn repos_with_key(items: Seq<(Option<ProjectNamespace>, repo::Repo)>, key: Option<Seq<char>>) -> Seq<repo::Repo>
    decreases items.len(),
{
    if items.len() == 0 {
        Seq::empty()
    } else {
        let before = repos_with_key(items.drop_last(), key);
        if namespace_view(items.last().0) == key {
            before.push(items.last().1)
        } else {
            before
        }
    }
}

/// No namespace occurs twice among `distinct_keys(keys)`.
pub proof fn lemma_distinct_keys_unique(keys: Seq<Option<Seq<char>>>)
    ensures
        forall|a: int, b: int|
            0 <= a < b < distinct_keys(keys).len() ==> distinct_keys(keys)[a] != distinct_keys(keys)[b],
    decreases keys.len(),
{
    if keys.len() > 0 {
        lemma_distinct_keys_unique(keys.drop_last());
        let before = distinct_keys(keys.drop_last());
        if !before.contains(keys.last()) {
            let after = before.push(keys.last());
            assert forall|a: int, b: int| 0 <= a < b < after.len() implies after[a] != after[b] by {
                if b == before.len() {
                    assert(before[a] != keys.last());
                }
            }
        }
    }
}

/// A namespace that no repository of a listing has holds no repositories.
pub proof fn lemma_absent_key_empty(items: Seq<(Option<ProjectNamespace>, repo::Repo)>, key: Option<Seq<char>>)
    requires
        !distinct_keys(key_views(items)).contains(key),
    ensures
        repos_with_key(items, key) == Seq::<repo::Repo>::empty(),
    decreases items.len(),
{
    if items.len() > 0 {
        assert(key_views(items.drop_last()) =~= key_views(items).drop_last());
        let before = distinct_keys(key_views(items.drop_last()));
        if !before.contains(key) {
            lemma_absent_key_empty(items.drop_last(), key);
        } else {
            let i = choose|i: int| 0 <= i < before.len() && before[i] == key;
            assert(distinct_keys(key_views(items))[i] == key);
        }
        assert(key_views(items)[items.len() - 1] == namespace_view(items.last().0));
        if namespace_view(items.last().0) == key {
            assert(distinct_keys(key_views(items)).contains(key)) by {
                if before.contains(key) {
                    let i = choose|i: int| 0 <= i < before.len() && before[i] == key;
                    assert(distinct_keys(key_views(items))[i] == key);
                } else {
                    assert(distinct_keys(key_views(items)) == before.push(key));
                    assert(distinct_keys(key_views(items))[before.len() as int] == key);
                }
            }
        }
    }
}

/// The position of the group of namespace `ns`, if there is one.
fn find_group(groups: &Vec<(Option<ProjectNamespace>, Vec<repo::Repo>)>, ns: &Option<ProjectNamespace>) -> (r: Option<usize>)
    ensures
        match r {
            Some(j) => j < groups.len() && namespace_view(groups@[j as int].0) == namespace_view(*ns),
            None => forall|t: int| 0 <= t < groups.len() ==> namespace_view(#[trigger] groups@[t].0) != namespace_view(*ns),
        },
{
    let mut j: usize = 0;
    while j < groups.len()
        invariant
            j <= groups.len(),
            forall|t: int| 0 <= t < j ==> namespace_view(#[trigger] groups@[t].0) != namespace_view(*ns),
        decreases groups.len() - j,
    {
        if namespace_eq(&groups[j].0, ns) {
            return Some(j);
        }
        j = j + 1;
    }
    None
}

/// The repositories of a listing grouped by namespace: the groups come in
/// the order in which their namespaces first occur, and each holds the
/// repositories of its namespace in the order of the listing. Each
/// namespace has one group; the groups are kept in a vector because a map
/// keyed by a text type would leave its contents unproved.
pub fn group_by_namespace(items: Vec<(Option<ProjectNamespace>, repo::Repo)>) -> (r: Vec<(Option<ProjectNamespace>, Vec<repo::Repo>)>)
    ensures
        r.len() == distinct_keys(key_views(items@)).len(),
        forall|g: int|
            0 <= g < r.len() ==> {
                &&& namespace_view((#[trigger] r[g]).0) == distinct_keys(key_views(items@))[g]
                &&& r[g].1@ == repos_with_key(items@, distinct_keys(key_views(items@))[g])
            },
{
    let mut groups: Vec<(Option<ProjectNamespace>, Vec<repo::Repo>)> = Vec::new();
    let mut rest = items;
    let ghost all = rest@;
    let n = rest.len();
    let mut k: usize = 0;
    while rest.len() > 0
        invariant
            n == all.len(),
            k + rest.len() == n,
            rest@ == all.subrange(k as int, n as int),
            groups.len() == distinct_keys(key_views(all.subrange(0, k as int))).len(),
            forall|g: int|
                0 <= g < groups.len() ==> {
                    &&& namespace_view((#[trigger] groups@[g]).0) == distinct_keys(
                        key_views(all.subrange(0, k as int)),
                    )[g]
                    &&& groups@[g].1@ == repos_with_key(
                        all.subrange(0, k as int),
                        distinct_keys(key_views(all.subrange(0, k as int)))[g],
                    )
                },
        decreases rest.len(),
    {
        let ghost prefix = all.subrange(0, k as int);
        let ghost next = all.subrange(0, k + 1);
        let ghost dk = distinct_keys(key_views(prefix));
        let (ns, repo) = rest.remove(0);
        let ghost x = (ns, repo);
        proof {
            assert(x == all[k as int]);
            assert(next.drop_last() =~= prefix);
            assert(next.last() == x);
            assert(key_views(next).drop_last() =~= key_views(prefix));
            assert(key_views(next).last() == namespace_view(ns));
            lemma_distinct_keys_unique(key_views(prefix));
        }
        match find_group(&groups, &ns) {
            Some(j) => {
                proof {
                    assert(dk[j as int] == namespace_view(ns));
                    assert(dk.contains(namespace_view(ns)));
                    assert(distinct_keys(key_views(next)) == dk);
                }
                let (gns, mut grepos) = groups.remove(j);
                grepos.push(repo);
                groups.insert(j, (gns, grepos));
                proof {
                    assert forall|g: int| 0 <= g < groups.len() implies {
                        &&& namespace_view((#[trigger] groups@[g]).0) == distinct_keys(key_views(next))[g]
                        &&& groups@[g].1@ == repos_with_key(next, distinct_keys(key_views(next))[g])
                    } by {
                        if g != j {
                            assert(dk[g] != dk[j as int]);
                        }
                    }
                }
            },
            None => {
                proof {
                    assert(!dk.contains(namespace_view(ns))) by {
                        if dk.contains(namespace_view(ns)) {
                            let t = choose|t: int| 0 <= t < dk.len() && dk[t] == namespace_view(ns);
                            assert(namespace_view(groups@[t].0) == dk[t]);
                        }
                    }
                    assert(distinct_keys(key_views(next)) == dk.push(namespace_view(ns)));
                    lemma_absent_key_empty(prefix, namespace_view(ns));
                }
                let mut grepos: Vec<repo::Repo> = Vec::new();
                grepos.push(repo);
                groups.push((ns, grepos));
                proof {
                    assert forall|g: int| 0 <= g < groups.len() implies {
                        &&& namespace_view((#[trigger] groups@[g]).0) == distinct_keys(key_views(next))[g]
                        &&& groups@[g].1@ == repos_with_key(next, distinct_keys(key_views(next))[g])
                    } by {
                        if g < dk.len() {
                            assert(dk[g] != namespace_view(ns));
                        } else {
                            assert(grepos@ =~= seq![repo]);
                        }
                    }
                }
            },
        }
        k = k + 1;
        proof {
            assert(rest@ =~= all.subrange(k as int, n as int));
        }
    }
    assert(all.subrange(0, n as int) =~= all);
    groups
}

/// No two projects of `repos` have the same name and namespace.
pub open spec fn no_duplicates<P: Project>(repos: Seq<P>) -> bool {
    forall|a: int, b: int| 0 <= a < b < repos.len() ==> !same_project(repos[a], repos[b])
}

/// Merging keeps the projects that were there, in order, and only appends.
pub proof fn law_merge_keeps_existing<P: Project>(repos: Seq<P>, new: Seq<P>)
    ensures
        merged(repos, new).len() >= repos.len(),
        merged(repos, new).subrange(0, repos.len() as int) == repos,
    decreases new.len(),
{
    if new.len() > 0 {
        let next = if already_present(repos, new[0]) { repos } else { repos.push(new[0]) };
        law_merge_keeps_existing(next, new.drop_first());
        assert(next.subrange(0, repos.len() as int) =~= repos);
        assert(merged(repos, new).subrange(0, repos.len() as int) =~= merged(next, new.drop_first()).subrange(
            0,
            next.len() as int,
        ).subrange(0, repos.len() as int));
    } else {
        assert(repos.subrange(0, repos.len() as int) =~= repos);
    }
}

/// After merging, every project of the new listing has one of the same name
/// and namespace in the result.
pub proof fn law_merge_covers_new<P: Project>(repos: Seq<P>, new: Seq<P>)
    ensures
        forall|i: int| 0 <= i < new.len() ==> already_present(merged(repos, new), #[trigger] new[i]),
    decreases new.len(),
{
    if new.len() > 0 {
        let next = if already_present(repos, new[0]) { repos } else { repos.push(new[0]) };
        law_merge_covers_new(next, new.drop_first());
        law_merge_keeps_existing(next, new.drop_first());
        let m = merged(repos, new);
        assert(already_present(next, new[0])) by {
            if already_present(repos, new[0]) {
            } else {
                assert(same_project(next[repos.len() as int], new[0]));
            }
        }
        assert(already_present(m, new[0])) by {
            let j = choose|j: int| 0 <= j < next.len() && same_project(#[trigger] next[j], new[0]);
            assert(m.subrange(0, next.len() as int)[j] == next[j]);
            assert(m[j] == next[j]);
        }
        assert forall|i: int| 0 <= i < new.len() implies already_present(m, #[trigger] new[i]) by {
            if i > 0 {
                assert(new.drop_first()[i - 1] == new[i]);
            }
        }
    }
}

/// Merging into a list without duplicates gives a list without
/// duplicates: a project that is already present is not added again.
pub proof fn law_merge_no_duplicates<P: Project>(repos: Seq<P>, new: Seq<P>)
    requires
        no_duplicates(repos),
    ensures
        no_duplicates(merged(repos, new)),
    decreases new.len(),
{
    if new.len() > 0 {
        let next = if already_present(repos, new[0]) { repos } else { repos.push(new[0]) };
        assert(no_duplicates(next)) by {
            if !already_present(repos, new[0]) {
                assert forall|a: int, b: int| 0 <= a < b < next.len() implies !same_project(next[a], next[b]) by {
                    if b == repos.len() {
                        assert(next[a] == repos[a]);
                        if same_project(repos[a], new[0]) {
                            assert(already_present(repos, new[0]));
                        }
                    } else {
                        assert(next[a] == repos[a] && next[b] == repos[b]);
                    }
                }
            }
        }
        law_merge_no_duplicates(next, new.drop_first());
    }
}

/// The groups of a listing have distinct namespaces.
pub proof fn law_groups_distinct(items: Seq<(Option<ProjectNamespace>, repo::Repo)>)
    ensures
        forall|a: int, b: int|
            0 <= a < b < distinct_keys(key_views(items)).len() ==> distinct_keys(key_views(items))[a]
                != distinct_keys(key_views(items))[b],
{
    lemma_distinct_keys_unique(key_views(items));
}

} // verus!
