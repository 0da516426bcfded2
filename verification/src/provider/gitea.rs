//! Gitea: its project listing and its error body. Listing projects from
//! Gitea is not supported yet; a Gitea API is always given by its URL.

use vstd::prelude::*;

use super::{Error, JsonError, Url};
use crate::auth;

verus! {

/// The media type that Gitea answers in.
pub const ACCEPT_HEADER_JSON: &'static str = "application/json";

/// Who can see a Gitea project.
#[derive(Debug, Clone, Copy, PartialEq, Eq, Structural)]
pub enum GiteaVisibility {
    Private,
    Internal,
    Public,
}

/// The project a fork was made from.
pub struct ParentProject;

/// A project as Gitea lists it; `name` is its path.
pub struct GiteaProject {
    pub name: String,
    pub path_with_namespace: String,
    pub http_url_to_repo: String,
    pub ssh_url_to_repo: String,
    pub visibility: GiteaVisibility,
    pub fork: bool,
}

/// The error body of the Gitea API.
pub struct GiteaApiErrorResponse {
    pub message: String,
}

impl JsonError for GiteaApiErrorResponse {
    open spec fn message(&self) -> Seq<char> {
        self.message@
    }

    fn to_string(self) -> (r: String) {
        self.message
    }
}

/// A Gitea API.
pub struct Gitea {
    secret_token: auth::AuthToken,
    api_url: Url,
}

impl Gitea {
    pub closed spec fn spec_api_url(&self) -> Seq<char> {
        self.api_url@
    }

    /// A Gitea API at `api_url_override`; there is no default instance, so
    /// a missing URL is an error.
    pub fn new(secret_token: auth::AuthToken, api_url_override: Option<Url>) -> (r: Result<Self, Error>)
        ensures
            match api_url_override {
                Some(url) => r matches Ok(g) && g.spec_api_url() == url@ && g.spec_secret_token() == secret_token,
                None => r matches Err(Error::Provider(m)) && m@ == "gitea always need a URL"@,
            },
    {
        match api_url_override {
            Some(api_url) => Ok(Self { secret_token, api_url }),
            None => Err(Error::Provider("gitea always need a URL".to_owned())),
        }
    }

    pub closed spec fn spec_secret_token(&self) -> auth::AuthToken {
        self.secret_token
    }

    pub fn secret_token(&self) -> (r: &auth::AuthToken)
        ensures
            *r == self.spec_secret_token(),
    {
        &self.secret_token
    }
}

} // verus!
