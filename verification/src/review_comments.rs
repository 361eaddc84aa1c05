//! Comments on the changes of a pull request.
use crate::credentials::AuthenticationConstraint;
use crate::errors::Error;
use crate::github::{Github, Method, Request};
use crate::media::MediaType;
use crate::query::{distinct_keys, join_query, put, serialized, with_query, Pairs, Params};
use crate::scope::{item_path, item_root, ItemView};
use crate::stream::{PageStream, StreamView};
use crate::text::{decimal, decimal_string, text_of};
use crate::time::Timestamp;
use crate::users::User;
use vstd::prelude::*;
use vstd::string::StringExecFns;

verus! {

/// The calls that act on the review comments on a pull request.
pub struct ReviewComments {
    github: Github,
    owner: String,
    repo: String,
    number: u64,
}

impl View for ReviewComments {
    type V = ItemView;

    closed spec fn view(&self) -> ItemView {
        ItemView {
            github: self.github@,
            owner: self.owner@,
            repo: self.repo@,
            number: self.number,
        }
    }
}

/// The path of the review comments on a pull request.
pub open spec fn review_comments_path(owner: Seq<char>, repo: Seq<char>, number: u64) -> Seq<char> {
    item_path(owner, repo, "/pulls/"@, number) + "/comments"@
}

impl ReviewComments {
    pub fn new(github: Github, owner: &str, repo: &str, number: u64) -> (r: ReviewComments)
        ensures
            r@ == (ItemView { github: github@, owner: owner@, repo: repo@, number }),
    {
        ReviewComments {
            github,
            owner: String::from_str(owner),
            repo: String::from_str(repo),
            number,
        }
    }

    pub fn path(&self) -> (r: String)
        ensures
            r@ == review_comments_path(self@.owner, self@.repo, self@.number),
    {
        let mut out = item_root(self.owner.as_str(), self.repo.as_str(), "/pulls/", self.number);
        out.append("/comments");
        out
    }

    /// Prepares the call that adds a comment. `review_comment` is the JSON
    /// text of a [`ReviewCommentOptions`], or the encoder's account of why there is
    /// none; in that case the call fails before anything is sent. The answer
    /// holds a [`ReviewComment`].
    pub fn create(&self, review_comment: Result<Vec<u8>, String>) -> (r: Result<Request, Error>)
        ensures
            self@.github.sends(
                Method::Post,
                review_comments_path(self@.owner, self@.repo, self@.number),
                review_comment,
                MediaType::Json,
                AuthenticationConstraint::Unconstrained,
                r,
            ),
    {
        self.github.request_encoded(
            Method::Post,
            self.path().as_str(),
            review_comment,
            MediaType::Json,
            AuthenticationConstraint::Unconstrained,
        )
    }

    /// Prepares the call that reads the first page of the listing that
    /// `options` describe; its answer holds a list of [`ReviewComment`].
    pub fn list(&self, options: &ReviewCommentListOptions) -> (r: Result<Request, Error>)
        ensures
            r matches Ok(request) && request@ == self@.github.call(
                Method::Get,
                with_query(
                    review_comments_path(self@.owner, self@.repo, self@.number),
                    serialized(options@),
                ),
                None,
                MediaType::Json,
            ),
    {
        let uri = join_query(self.path(), options.serialize());
        self.github.get(uri.as_str())
    }

    /// A stream over the whole listing that `options` describe, page after
    /// page.
    pub fn iter(&self, options: &ReviewCommentListOptions) -> (r: PageStream<ReviewComment>)
        ensures
            r@ == StreamView::<ReviewComment>::fresh(
                self@.github,
                with_query(
                    review_comments_path(self@.owner, self@.repo, self@.number),
                    serialized(options@),
                ),
            ),
    {
        let uri = join_query(self.path(), options.serialize());
        self.github.get_stream(uri.as_str())
    }
}

/// What a new review comment consists of.
#[derive(Debug, Clone, PartialEq, Eq)]
pub struct ReviewCommentOptions {
    pub body: String,
    pub commit_id: String,
    pub path: String,
    pub position: usize,
}

impl Default for ReviewCommentOptions {
    fn default() -> (r: ReviewCommentOptions)
        ensures
            r.body@.len() == 0,
            r.commit_id@.len() == 0,
            r.path@.len() == 0,
            r.position == 0,
    {
        ReviewCommentOptions {
            body: String::new(),
            commit_id: String::new(),
            path: String::new(),
            position: 0,
        }
    }
}

/// A review comment as the server describes it.
#[derive(Debug, Clone, PartialEq, Eq)]
pub struct ReviewComment {
    pub id: u64,
    pub url: String,
    pub diff_hunk: String,
    pub path: String,
    pub position: u64,
    pub original_position: u64,
    pub commit_id: String,
    pub original_commit_id: String,
    pub user: User,
    pub body: String,
    pub created_at: Timestamp,
    pub updated_at: Timestamp,
    pub html_url: String,
    pub pull_request_url: String,
}

/// The options that narrow a listing of review comments.
#[derive(Debug, PartialEq, Eq)]
pub struct ReviewCommentListOptions {
    params: Params,
}

impl View for ReviewCommentListOptions {
    type V = Pairs;

    closed spec fn view(&self) -> Pairs {
        self.params@
    }
}

impl Default for ReviewCommentListOptions {
    fn default() -> (r: ReviewCommentListOptions)
        ensures
            r@ == Pairs::empty(),
    {
        ReviewCommentListOptions { params: Params::new() }
    }
}

impl ReviewCommentListOptions {
    pub fn builder() -> (r: ReviewCommentListOptionsBuilder)
        ensures
            r@ == Pairs::empty(),
    {
        ReviewCommentListOptionsBuilder::default()
    }

    /// The options as the query of an address, or nothing where no option
    /// is set.
    pub fn serialize(&self) -> (r: Option<String>)
        ensures
            text_of(r) == serialized(self@),
            distinct_keys(self@),
    {
        self.params.serialize()
    }
}

/// Builds a [`ReviewCommentListOptions`] step by step.
pub struct ReviewCommentListOptionsBuilder(ReviewCommentListOptions);

impl View for ReviewCommentListOptionsBuilder {
    type V = Pairs;

    closed spec fn view(&self) -> Pairs {
        self.0@
    }
}

impl Default for ReviewCommentListOptionsBuilder {
    fn default() -> (r: ReviewCommentListOptionsBuilder)
        ensures
            r@ == Pairs::empty(),
    {
        ReviewCommentListOptionsBuilder(ReviewCommentListOptions::default())
    }
}

impl ReviewCommentListOptionsBuilder {
    /// Asks for pages of `n` items.
    pub fn per_page(&mut self, n: usize) -> (r: &mut Self)
        ensures
            r@ == put(old(self)@, "per_page"@, decimal(n as nat)),
            distinct_keys(r@),
            *final(self) == *final(r),
    {
        self.0.params.insert("per_page", decimal_string(n as u64));
        self
    }

    /// Asks for what has changed since the given time.
    pub fn since(&mut self, since: &str) -> (r: &mut Self)
        ensures
            r@ == put(old(self)@, "since"@, since@),
            distinct_keys(r@),
            *final(self) == *final(r),
    {
        self.0.params.insert("since", String::from_str(since));
        self
    }

    pub fn build(&self) -> (r: ReviewCommentListOptions)
        ensures
            r@ == self@,
            distinct_keys(r@),
    {
        ReviewCommentListOptions { params: self.0.params.clone() }
    }
}

} // verus!
