//! Users.
use crate::errors::Error;
use crate::github::{Github, GithubView, Method, Request};
use crate::media::MediaType;
use crate::scope::{repo_path, repo_root, RepoView};
use crate::stream::{PageStream, StreamView};
use vstd::prelude::*;
use vstd::string::StringExecFns;

pub mod deserialize_null_user;

verus! {

/// A user as the server describes it.
#[derive(Debug, Clone, PartialEq, Eq)]
pub struct User {
    pub login: String,
    pub id: u64,
    pub avatar_url: String,
    pub gravatar_id: String,
    pub url: String,
    pub html_url: String,
    pub followers_url: String,
    pub following_url: String,
    pub gists_url: String,
    pub starred_url: String,
    pub subscriptions_url: String,
    pub organizations_url: String,
    pub repos_url: String,
    pub events_url: String,
    pub received_events_url: String,
    pub site_admin: bool,
}

impl User {
    /// Whether this is the user that stands in where the server names none:
    /// every text empty, the id zero, no administrator.
    pub open spec fn is_nobody(&self) -> bool {
        &&& self.login@.len() == 0
        &&& self.id == 0
        &&& self.avatar_url@.len() == 0
        &&& self.gravatar_id@.len() == 0
        &&& self.url@.len() == 0
        &&& self.html_url@.len() == 0
        &&& self.followers_url@.len() == 0
        &&& self.following_url@.len() == 0
        &&& self.gists_url@.len() == 0
        &&& self.starred_url@.len() == 0
        &&& self.subscriptions_url@.len() == 0
        &&& self.organizations_url@.len() == 0
        &&& self.repos_url@.len() == 0
        &&& self.events_url@.len() == 0
        &&& self.received_events_url@.len() == 0
        &&& !self.site_admin
    }
}

impl Default for User {
    fn default() -> (r: User)
        ensures
            r.is_nobody(),
    {
        User {
            login: String::new(),
            id: 0,
            avatar_url: String::new(),
            gravatar_id: String::new(),
            url: String::new(),
            html_url: String::new(),
            followers_url: String::new(),
            following_url: String::new(),
            gists_url: String::new(),
            starred_url: String::new(),
            subscriptions_url: String::new(),
            organizations_url: String::new(),
            repos_url: String::new(),
            events_url: String::new(),
            received_events_url: String::new(),
            site_admin: false,
        }
    }
}

/// The user that a client is authenticated as, as the server describes it.
#[derive(Debug, Clone, PartialEq, Eq)]
pub struct AuthenticatedUser {
    pub login: String,
    pub id: u64,
    pub avatar_url: String,
    pub gravatar_id: String,
    pub url: String,
    pub html_url: String,
    pub followers_url: String,
    pub following_url: String,
    pub gists_url: String,
    pub starred_url: String,
    pub subscriptions_url: String,
    pub organizations_url: String,
    pub repos_url: String,
    pub events_url: String,
    pub received_events_url: String,
    pub site_admin: bool,
    pub name: Option<String>,
    pub company: Option<String>,
    pub blog: String,
    pub location: Option<String>,
    pub email: Option<String>,
    pub hireable: Option<bool>,
    pub bio: Option<String>,
    pub public_repos: u64,
    pub public_gists: u64,
    pub followers: u64,
    pub following: u64,
    pub created_at: String,
    pub updated_at: String,
}

/// An address at which a user gets mail.
#[derive(Debug, Clone, PartialEq, Eq)]
pub struct UserEmail {
    pub email: String,
    pub primary: bool,
    pub verified: bool,
    pub visibility: Option<String>,
}

/// The calls that ask about users.
pub struct Users {
    github: Github,
}

impl View for Users {
    type V = GithubView;

    closed spec fn view(&self) -> GithubView {
        self.github@
    }
}

impl Users {
    pub fn new(github: Github) -> (r: Users)
        ensures
            r@ == github@,
    {
        Users { github }
    }

    /// Prepares the call that reads the authenticated user; its answer
    /// holds an [`AuthenticatedUser`].
    pub fn authenticated(&self) -> (r: Result<Request, Error>)
        ensures
            r matches Ok(request) && request@ == self@.call(
                Method::Get,
                "/user"@,
                None,
                MediaType::Json,
            ),
    {
        self.github.get("/user")
    }

    /// Prepares the call that reads the authenticated user's mail
    /// addresses; its answer holds a list of [`UserEmail`].
    pub fn authenticated_emails(&self) -> (r: Result<Request, Error>)
        ensures
            r matches Ok(request) && request@ == self@.call(
                Method::Get,
                "/user/emails"@,
                None,
                MediaType::Json,
            ),
    {
        self.github.get("/user/emails")
    }

    /// Prepares the call that reads the user `username`; its answer holds a
    /// [`User`].
    pub fn get(&self, username: &str) -> (r: Result<Request, Error>)
        ensures
            r matches Ok(request) && request@ == self@.call(
                Method::Get,
                "/users/"@ + username@,
                None,
                MediaType::Json,
            ),
    {
        let mut path = String::from_str("/users/");
        path.append(username);
        self.github.get(path.as_str())
    }
}

/// The contributors of a repository.
pub struct Contributors {
    github: Github,
    owner: String,
    repo: String,
}

impl View for Contributors {
    type V = RepoView;

    closed spec fn view(&self) -> RepoView {
        RepoView { github: self.github@, owner: self.owner@, repo: self.repo@ }
    }
}

/// The path of the contributors of a repository.
pub open spec fn contributors_path(owner: Seq<char>, repo: Seq<char>) -> Seq<char> {
    repo_path(owner, repo) + "/contributors"@
}

impl Contributors {
    pub fn new(github: Github, owner: &str, repo: &str) -> (r: Contributors)
        ensures
            r@ == (RepoView { github: github@, owner: owner@, repo: repo@ }),
    {
        Contributors { github, owner: String::from_str(owner), repo: String::from_str(repo) }
    }

    fn path(&self) -> (r: String)
        ensures
            r@ == contributors_path(self@.owner, self@.repo),
    {
        let mut out = repo_root(self.owner.as_str(), self.repo.as_str());
        out.append("/contributors");
        out
    }

    /// Prepares the call that reads the first page of contributors; its
    /// answer holds a list of [`User`].
    pub fn list(&self) -> (r: Result<Request, Error>)
        ensures
            r matches Ok(request) && request@ == self@.github.call(
                Method::Get,
                contributors_path(self@.owner, self@.repo),
                None,
                MediaType::Json,
            ),
    {
        self.github.get(self.path().as_str())
    }

    /// A stream over all contributors, page after page.
    pub fn iter(&self) -> (r: PageStream<User>)
        ensures
            r@ == StreamView::<User>::fresh(
                self@.github,
                contributors_path(self@.owner, self@.repo),
            ),
    {
        self.github.get_stream(self.path().as_str())
    }
}

} // verus!
