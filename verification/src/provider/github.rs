//! GitHub: its project listing, its error body and the URLs of its API.

use vstd::prelude::*;

use super::{escape, spec_escape, Error, Filter, Group, JsonError, Project, ProjectName,
    ProjectNamespace, Url, User};
use crate::auth;
use crate::repo::RemoteUrl;
use crate::text::{str_concat, str_concat3, rsplit_once, rsplit_once_spec, trim_end_char, trim_end_char_spec};

verus! {

broadcast use crate::repo::remote::RemoteUrl::lemma_spec_new_view;

/// The media type that GitHub answers its v3 API in.
pub const ACCEPT_HEADER_JSON: &'static str = "application/vnd.github.v3+json";

/// The GitHub API used when no other is configured.
pub const GITHUB_API_BASEURL: &'static str = "https://api.github.com";

/// A repository as GitHub lists it.
pub struct GithubProject {
    pub name: String,
    pub full_name: String,
    pub clone_url: String,
    pub ssh_url: String,
    pub private: bool,
}

impl Project for GithubProject {
    open spec fn project_name(&self) -> Seq<char> {
        self.name@
    }

    /// What comes before the last `/` of the full name.
    open spec fn project_namespace(&self) -> Option<Seq<char>> {
        match rsplit_once_spec(self.full_name@, '/') {
            Some((namespace, _)) => Some(namespace),
            None => None,
        }
    }

    open spec fn project_ssh_url(&self) -> Seq<char> {
        self.ssh_url@
    }

    open spec fn project_http_url(&self) -> Seq<char> {
        self.clone_url@
    }

    open spec fn project_private(&self) -> bool {
        self.private
    }

    fn name(&self) -> (r: ProjectName) {
        ProjectName::new(self.name.clone())
    }

    fn namespace(&self) -> (r: Option<ProjectNamespace>) {
        match rsplit_once(self.full_name.as_str(), '/') {
            Some((namespace, _name)) => Some(ProjectNamespace::new(namespace)),
            None => None,
        }
    }

    fn ssh_url(&self) -> (r: RemoteUrl) {
        RemoteUrl::new(self.ssh_url.clone())
    }

    fn http_url(&self) -> (r: RemoteUrl) {
        RemoteUrl::new(self.clone_url.clone())
    }

    fn private(&self) -> (r: bool) {
        self.private
    }
}

/// The error body of the GitHub API.
pub struct GithubApiErrorResponse {
    pub message: String,
}

impl JsonError for GithubApiErrorResponse {
    open spec fn message(&self) -> Seq<char> {
        self.message@
    }

    fn to_string(self) -> (r: String) {
        self.message
    }
}

/// A GitHub API to list projects from.
pub struct Github {
    filter: Filter,
    secret_token: auth::AuthToken,
    api_url_override: Option<Url>,
}

impl Github {
    /// The base URL of the API in use.
    pub closed spec fn spec_api_url(&self) -> Seq<char> {
        trim_end_char_spec(
            match self.api_url_override {
                Some(url) => url@,
                None => GITHUB_API_BASEURL@,
            },
            '/',
        )
    }

    pub closed spec fn spec_filter(&self) -> Filter {
        self.filter
    }

    pub closed spec fn spec_secret_token(&self) -> auth::AuthToken {
        self.secret_token
    }

    pub fn new(filter: Filter, secret_token: auth::AuthToken, api_url_override: Option<Url>) -> (r: Result<Self, Error>)
        ensures
            r matches Ok(g) && g.spec_filter() == filter && g.spec_secret_token() == secret_token
                && g.spec_api_url() == trim_end_char_spec(
                match api_url_override {
                    Some(url) => url@,
                    None => GITHUB_API_BASEURL@,
                },
                '/',
            ),
    {
        Ok(Self { filter, secret_token, api_url_override })
    }

    pub fn filter(&self) -> (r: &Filter)
        ensures
            *r == self.spec_filter(),
    {
        &self.filter
    }

    pub fn secret_token(&self) -> (r: &auth::AuthToken)
        ensures
            *r == self.spec_secret_token(),
    {
        &self.secret_token
    }

    /// The scheme of the authorization header.
    pub fn auth_header_key() -> (r: &'static str)
        ensures
            r@ == "token"@,
    {
        "token"
    }

    /// The base URL of the API, without trailing slashes: the configured
    /// one, or `https://api.github.com`.
    pub fn api_url(&self) -> (r: Url)
        ensures
            r@ == self.spec_api_url(),
    {
        let base = match &self.api_url_override {
            Some(url) => url.as_str(),
            None => GITHUB_API_BASEURL,
        };
        Url::new(trim_end_char(base, '/'))
    }

    /// `<api>/users/<user>/repos`.
    pub fn user_projects_url(&self, user: &User) -> (r: Url)
        ensures
            r@ == self.spec_api_url() + "/users/"@ + spec_escape(user@) + "/repos"@,
    {
        let mut u = str_concat3(self.api_url().as_str(), "/users/", escape(user.as_str()).as_str());
        u.append("/repos");
        Url::new(u)
    }

    /// `<api>/orgs/<group>/repos?type=all`.
    pub fn group_projects_url(&self, group: &Group) -> (r: Url)
        ensures
            r@ == self.spec_api_url() + "/orgs/"@ + spec_escape(group@) + "/repos?type=all"@,
    {
        let mut u = str_concat3(self.api_url().as_str(), "/orgs/", escape(group.as_str()).as_str());
        u.append("/repos?type=all");
        Url::new(u)
    }

    /// `<api>/user/repos`.
    pub fn accessible_projects_url(&self) -> (r: Url)
        ensures
            r@ == self.spec_api_url() + "/user/repos"@,
    {
        Url::new(str_concat(self.api_url().as_str(), "/user/repos"))
    }

    /// `<api>/user`.
    pub fn current_user_url(&self) -> (r: Url)
        ensures
            r@ == self.spec_api_url() + "/user"@,
    {
        Url::new(str_concat(self.api_url().as_str(), "/user"))
    }
}

} // verus!
