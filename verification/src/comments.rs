//! Comments on issues.
use crate::credentials::AuthenticationConstraint;
use crate::errors::Error;
use crate::github::{Github, Method, Request};
use crate::media::MediaType;
use crate::query::{distinct_keys, join_query, put, serialized, with_query, Pairs, Params};
use crate::scope::{item_path, item_root, ItemView};
use crate::stream::{PageStream, StreamView};
use crate::text::{decimal, decimal_string, text_of};
use crate::time::Timestamp;
use crate::users::User;
use vstd::prelude::*;
use vstd::string::StringExecFns;

verus! {

/// The calls that act on the comments on an issue.
pub struct Comments {
    github: Github,
    owner: String,
    repo: String,
    number: u64,
}

impl View for Comments {
    type V = ItemView;

    closed spec fn view(&self) -> ItemView {
        ItemView {
            github: self.github@,
            owner: self.owner@,
            repo: self.repo@,
            number: self.number,
        }
    }
}

/// The path of the comments on an issue.
pub open spec fn issue_comments_path(owner: Seq<char>, repo: Seq<char>, number: u64) -> Seq<char> {
    item_path(owner, repo, "/issues/"@, number) + "/comments"@
}

impl Comments {
    pub fn new(github: Github, owner: &str, repo: &str, number: u64) -> (r: Comments)
        ensures
            r@ == (ItemView { github: github@, owner: owner@, repo: repo@, number }),
    {
        Comments {
            github,
            owner: String::from_str(owner),
            repo: String::from_str(repo),
            number,
        }
    }

    pub fn path(&self) -> (r: String)
        ensures
            r@ == issue_comments_path(self@.owner, self@.repo, self@.number),
    {
        let mut out = item_root(self.owner.as_str(), self.repo.as_str(), "/issues/", self.number);
        out.append("/comments");
        out
    }

    /// Prepares the call that adds a comment. `comment` is the JSON
    /// text of a [`CommentOptions`], or the encoder's account of why there is
    /// none; in that case the call fails before anything is sent. The answer
    /// holds a [`Comment`].
    pub fn create(&self, comment: Result<Vec<u8>, String>) -> (r: Result<Request, Error>)
        ensures
            self@.github.sends(
                Method::Post,
                issue_comments_path(self@.owner, self@.repo, self@.number),
                comment,
                MediaType::Json,
                AuthenticationConstraint::Unconstrained,
                r,
            ),
    {
        self.github.request_encoded(
            Method::Post,
            self.path().as_str(),
            comment,
            MediaType::Json,
            AuthenticationConstraint::Unconstrained,
        )
    }

    /// Prepares the call that reads the first page of the listing that
    /// `options` describe; its answer holds a list of [`Comment`].
    pub fn list(&self, options: &CommentListOptions) -> (r: Result<Request, Error>)
        ensures
            r matches Ok(request) && request@ == self@.github.call(
                Method::Get,
                with_query(
                    issue_comments_path(self@.owner, self@.repo, self@.number),
                    serialized(options@),
                ),
                None,
                MediaType::Json,
            ),
    {
        let uri = join_query(self.path(), options.serialize());
        self.github.get(uri.as_str())
    }

    /// A stream over the whole listing that `options` describe, page after
    /// page.
    pub fn iter(&self, options: &CommentListOptions) -> (r: PageStream<Comment>)
        ensures
            r@ == StreamView::<Comment>::fresh(
                self@.github,
                with_query(
                    issue_comments_path(self@.owner, self@.repo, self@.number),
                    serialized(options@),
                ),
            ),
    {
        let uri = join_query(self.path(), options.serialize());
        self.github.get_stream(uri.as_str())
    }
}

/// A comment as the server describes it.
#[derive(Debug, Clone, PartialEq, Eq)]
pub struct Comment {
    pub id: u64,
    pub url: String,
    pub html_url: String,
    pub body: String,
    pub user: User,
    pub created_at: Timestamp,
    pub updated_at: Timestamp,
}

/// What a new comment consists of.
#[derive(Debug, Clone, PartialEq, Eq)]
pub struct CommentOptions {
    pub body: String,
}

/// The options that narrow a listing of comments.
#[derive(Debug, PartialEq, Eq)]
pub struct CommentListOptions {
    params: Params,
}

impl View for CommentListOptions {
    type V = Pairs;

    closed spec fn view(&self) -> Pairs {
        self.params@
    }
}

impl Default for CommentListOptions {
    fn default() -> (r: CommentListOptions)
        ensures
            r@ == Pairs::empty(),
    {
        CommentListOptions { params: Params::new() }
    }
}

impl CommentListOptions {
    pub fn builder() -> (r: CommentListOptionsBuilder)
        ensures
            r@ == Pairs::empty(),
    {
        CommentListOptionsBuilder::default()
    }

    /// The options as the query of an address, or nothing where no option
    /// is set.
    pub fn serialize(&self) -> (r: Option<String>)
        ensures
            text_of(r) == serialized(self@),
            distinct_keys(self@),
    {
        self.params.serialize()
    }
}

/// Builds a [`CommentListOptions`] step by step.
pub struct CommentListOptionsBuilder(CommentListOptions);

impl View for CommentListOptionsBuilder {
    type V = Pairs;

    closed spec fn view(&self) -> Pairs {
        self.0@
    }
}

impl Default for CommentListOptionsBuilder {
    fn default() -> (r: CommentListOptionsBuilder)
        ensures
            r@ == Pairs::empty(),
    {
        CommentListOptionsBuilder(CommentListOptions::default())
    }
}

impl CommentListOptionsBuilder {
    /// Asks for pages of `n` items.
    pub fn per_page(&mut self, n: usize) -> (r: &mut Self)
        ensures
            r@ == put(old(self)@, "per_page"@, decimal(n as nat)),
            distinct_keys(r@),
            *final(self) == *final(r),
    {
        self.0.params.insert("per_page", decimal_string(n as u64));
        self
    }

    /// Asks for what has changed since the given time.
    pub fn since(&mut self, since: &str) -> (r: &mut Self)
        ensures
            r@ == put(old(self)@, "since"@, since@),
            distinct_keys(r@),
            *final(self) == *final(r),
    {
        self.0.params.insert("since", String::from_str(since));
        self
    }

    pub fn build(&self) -> (r: CommentListOptions)
        ensures
            r@ == self@,
            distinct_keys(r@),
    {
        CommentListOptions { params: self.0.params.clone() }
    }
}

} // verus!
