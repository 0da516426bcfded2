//! GitLab: its project listing, its error body and the URLs of its API.

use vstd::prelude::*;

use super::{escape, spec_escape, Error, Filter, Group, JsonError, Project, ProjectName,
    ProjectNamespace, Url, User};
use crate::auth;
use crate::repo::RemoteUrl;
use crate::text::{str_concat, str_concat3, rsplit_once, rsplit_once_spec, trim_end_char, trim_end_char_spec};

verus! {

broadcast use crate::repo::remote::RemoteUrl::lemma_spec_new_view;

/// The media type that GitLab answers in.
pub const ACCEPT_HEADER_JSON: &'static str = "application/json";

/// The GitLab instance used when no other is configured.
pub const GITLAB_API_BASEURL: &'static str = "https://gitlab.com";

/// Who can see a GitLab project.
#[derive(Debug, Clone, Copy, PartialEq, Eq, Structural)]
pub enum GitlabVisibility {
    Private,
    Internal,
    Public,
}

/// A project as GitLab lists it; `name` is its path.
pub struct GitlabProject {
    pub name: String,
    pub path_with_namespace: String,
    pub http_url_to_repo: String,
    pub ssh_url_to_repo: String,
    pub visibility: GitlabVisibility,
}

impl Project for GitlabProject {
    open spec fn project_name(&self) -> Seq<char> {
        self.name@
    }

    /// What comes before the last `/` of the path with namespace.
    open spec fn project_namespace(&self) -> Option<Seq<char>> {
        match rsplit_once_spec(self.path_with_namespace@, '/') {
            Some((namespace, _)) => Some(namespace),
            None => None,
        }
    }

    open spec fn project_ssh_url(&self) -> Seq<char> {
        self.ssh_url_to_repo@
    }

    open spec fn project_http_url(&self) -> Seq<char> {
        self.http_url_to_repo@
    }

    /// Everything that is not public counts as private.
    open spec fn project_private(&self) -> bool {
        self.visibility != GitlabVisibility::Public
    }

    fn name(&self) -> (r: ProjectName) {
        ProjectName::new(self.name.clone())
    }

    fn namespace(&self) -> (r: Option<ProjectNamespace>) {
        match rsplit_once(self.path_with_namespace.as_str(), '/') {
            Some((namespace, _name)) => Some(ProjectNamespace::new(namespace)),
            None => None,
        }
    }

    fn ssh_url(&self) -> (r: RemoteUrl) {
        RemoteUrl::new(self.ssh_url_to_repo.clone())
    }

    fn http_url(&self) -> (r: RemoteUrl) {
        RemoteUrl::new(self.http_url_to_repo.clone())
    }

    fn private(&self) -> (r: bool) {
        match self.visibility {
            GitlabVisibility::Public => false,
            _ => true,
        }
    }
}

/// The error body of the GitLab API.
pub struct GitlabApiErrorResponse {
    pub message: String,
}

impl JsonError for GitlabApiErrorResponse {
    open spec fn message(&self) -> Seq<char> {
        self.message@
    }

    fn to_string(self) -> (r: String) {
        self.message
    }
}

/// A GitLab API to list projects from.
pub struct Gitlab {
    filter: Filter,
    secret_token: auth::AuthToken,
    api_url_override: Option<Url>,
}

impl Gitlab {
    /// The base URL of the API in use.
    pub closed spec fn spec_api_url(&self) -> Seq<char> {
        trim_end_char_spec(
            match self.api_url_override {
                Some(url) => url@,
                None => GITLAB_API_BASEURL@,
            },
            '/',
        )
    }

    pub closed spec fn spec_filter(&self) -> Filter {
        self.filter
    }

    pub closed spec fn spec_secret_token(&self) -> auth::AuthToken {
        self.secret_token
    }

    pub fn new(filter: Filter, secret_token: auth::AuthToken, api_url_override: Option<Url>) -> (r: Result<Self, Error>)
        ensures
            r matches Ok(g) && g.spec_filter() == filter && g.spec_secret_token() == secret_token
                && g.spec_api_url() == trim_end_char_spec(
                match api_url_override {
                    Some(url) => url@,
                    None => GITLAB_API_BASEURL@,
                },
                '/',
            ),
    {
        Ok(Self { filter, secret_token, api_url_override })
    }

    pub fn filter(&self) -> (r: &Filter)
        ensures
            *r == self.spec_filter(),
    {
        &self.filter
    }

    pub fn secret_token(&self) -> (r: &auth::AuthToken)
        ensures
            *r == self.spec_secret_token(),
    {
        &self.secret_token
    }

    /// The scheme of the authorization header.
    pub fn auth_header_key() -> (r: &'static str)
        ensures
            r@ == "bearer"@,
    {
        "bearer"
    }

    /// The base URL of the API, without trailing slashes: the configured
    /// one, or `https://gitlab.com`.
    pub fn api_url(&self) -> (r: Url)
        ensures
            r@ == self.spec_api_url(),
    {
        let base = match &self.api_url_override {
            Some(url) => url.as_str(),
            None => GITLAB_API_BASEURL,
        };
        Url::new(trim_end_char(base, '/'))
    }

    /// `<api>/api/v4/users/<user>/projects`.
    pub fn user_projects_url(&self, user: &User) -> (r: Url)
        ensures
            r@ == self.spec_api_url() + "/api/v4/users/"@ + spec_escape(user@) + "/projects"@,
    {
        let mut u = str_concat3(self.api_url().as_str(), "/api/v4/users/", escape(user.as_str()).as_str());
        u.append("/projects");
        Url::new(u)
    }

    /// `<api>/api/v4/groups/<group>/projects?include_subgroups=true&archived=false`.
    pub fn group_projects_url(&self, group: &Group) -> (r: Url)
        ensures
            r@ == self.spec_api_url() + "/api/v4/groups/"@ + spec_escape(group@)
                + "/projects?include_subgroups=true&archived=false"@,
    {
        let mut u = str_concat3(self.api_url().as_str(), "/api/v4/groups/", escape(group.as_str()).as_str());
        u.append("/projects?include_subgroups=true&archived=false");
        Url::new(u)
    }

    /// `<api>/api/v4/projects`.
    pub fn accessible_projects_url(&self) -> (r: Url)
        ensures
            r@ == self.spec_api_url() + "/api/v4/projects"@,
    {
        Url::new(str_concat(self.api_url().as_str(), "/api/v4/projects"))
    }

    /// `<api>/api/v4/user`.
    pub fn current_user_url(&self) -> (r: Url)
        ensures
            r@ == self.spec_api_url() + "/api/v4/user"@,
    {
        Url::new(str_concat(self.api_url().as_str(), "/api/v4/user"))
    }
}

/// A GitLab project counts as private exactly when it is not public:
/// private and internal projects are private, public ones are not. So a
/// private or internal project is cloned over SSH, a public one over
/// HTTPS unless SSH is forced.
pub proof fn law_gitlab_private_unless_public(p: GitlabProject)
    ensures
        p.visibility is Private ==> p.project_private(),
        p.visibility is Internal ==> p.project_private(),
        p.visibility is Public ==> !p.project_private(),
{
}

} // verus!
