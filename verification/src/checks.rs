//! Check runs and check suites.
use crate::credentials::AuthenticationConstraint;
use crate::errors::Error;
use crate::github::{Github, Method, Request};
use crate::media::MediaType;
use crate::query::{distinct_keys, put, serialized, Pairs, Params};
use crate::scope::{repo_path, repo_root, RepoView};
use crate::text::{decimal, decimal_string, text_of};
use crate::time::Timestamp;
use vstd::prelude::*;
use vstd::string::StringExecFns;

pub mod deserialize_null_string;
pub mod deserialize_null_u32;

verus! {

/// The code name of the preview in which the server offers check runs.
pub const CHECKS_PREVIEW: &'static str = "antiope";

/// The calls that act on the check runs of a repository. They ask for the
/// preview representation of check runs.
pub struct CheckRuns {
    github: Github,
    owner: String,
    repo: String,
}

impl View for CheckRuns {
    type V = RepoView;

    closed spec fn view(&self) -> RepoView {
        RepoView { github: self.github@, owner: self.owner@, repo: self.repo@ }
    }
}

/// The path of the check runs of a repository, or of what lies at `more`
/// below them.
pub open spec fn check_runs_path(owner: Seq<char>, repo: Seq<char>, more: Seq<char>) -> Seq<char> {
    repo_path(owner, repo) + "/check-runs"@ + more
}

impl CheckRuns {
    pub fn new(github: Github, owner: &str, repo: &str) -> (r: CheckRuns)
        ensures
            r@ == (RepoView { github: github@, owner: owner@, repo: repo@ }),
    {
        CheckRuns { github, owner: String::from_str(owner), repo: String::from_str(repo) }
    }

    pub fn path(&self, more: &str) -> (r: String)
        ensures
            r@ == check_runs_path(self@.owner, self@.repo, more@),
    {
        let mut out = repo_root(self.owner.as_str(), self.repo.as_str());
        out.append("/check-runs");
        out.append(more);
        out
    }

    /// Prepares the call that makes a check run. `check_run_options` is the
    /// JSON text of a [`CheckRunOptions`], or the encoder's account of why
    /// there is none; in that case the call fails before anything is sent. The
    /// answer holds a [`CheckRun`].
    pub fn create(&self, check_run_options: Result<Vec<u8>, String>) -> (r: Result<
        Request,
        Error,
    >)
        ensures
            self@.github.sends(
                Method::Post,
                check_runs_path(self@.owner, self@.repo, ""@),
                check_run_options,
                MediaType::Preview(CHECKS_PREVIEW),
                AuthenticationConstraint::Unconstrained,
                r,
            ),
    {
        match check_run_options {
            Ok(data) => self.github.post_media(
                self.path("").as_str(),
                data,
                MediaType::Preview(CHECKS_PREVIEW),
                AuthenticationConstraint::Unconstrained,
            ),
            Err(e) => Err(Error::Serialization(e)),
        }
    }

    /// Prepares the call that changes the check run `check_run_id`.
    /// `check_run_options` is the JSON text of a [`CheckRunUpdateOptions`], or
    /// the encoder's account of why there is none; in that case the call fails
    /// before anything is sent. The answer holds a [`CheckRun`].
    pub fn update(&self, check_run_id: &str, check_run_options: Result<Vec<u8>, String>) -> (r:
        Result<Request, Error>)
        ensures
            self@.github.sends(
                Method::Post,
                check_runs_path(self@.owner, self@.repo, "/"@ + check_run_id@),
                check_run_options,
                MediaType::Preview(CHECKS_PREVIEW),
                AuthenticationConstraint::Unconstrained,
                r,
            ),
    {
        match check_run_options {
            Ok(data) => {
                let mut more = String::from_str("/");
                more.append(check_run_id);
                self.github.post_media(
                    self.path(more.as_str()).as_str(),
                    data,
                    MediaType::Preview(CHECKS_PREVIEW),
                    AuthenticationConstraint::Unconstrained,
                )
            },
            Err(e) => Err(Error::Serialization(e)),
        }
    }

    /// Prepares the call that reads the check runs of the suite
    /// `suite_id`; its answer holds a list of [`CheckRun`].
    pub fn list_for_suite(&self, suite_id: &str) -> (r: Result<Request, Error>)
        ensures
            r matches Ok(request) && request@ == self@.github.call(
                Method::Get,
                check_runs_path(self@.owner, self@.repo, "/"@ + suite_id@ + "/check-runs"@),
                None,
                MediaType::Preview(CHECKS_PREVIEW),
            ),
    {
        let mut more = String::from_str("/");
        more.append(suite_id);
        more.append("/check-runs");
        self.github.get_media(self.path(more.as_str()).as_str(), MediaType::Preview(CHECKS_PREVIEW))
    }
}

/// How far a check run has come.
#[derive(Clone, Copy, Debug, PartialEq, Eq, Structural)]
pub enum CheckRunState {
    Queued,
    InProgress,
    Completed,
}

/// How a check run has ended.
#[derive(Clone, Copy, Debug, PartialEq, Eq, Structural)]
pub enum Conclusion {
    Success,
    Failure,
    Neutral,
    Cancelled,
    TimedOut,
    ActionRequired,
}

/// How grave an annotation is.
#[derive(Clone, Copy, Debug, PartialEq, Eq, Structural)]
pub enum AnnotationLevel {
    Notice,
    Warning,
    Failure,
}

/// What a check run reports.
#[derive(Debug, Clone, PartialEq, Eq)]
pub struct Output {
    pub title: String,
    pub summary: String,
    pub text: Option<String>,
    pub annotations: Option<Vec<Annotation>>,
    pub images: Option<Vec<Image>>,
}

/// Something that a check run offers its reader to do.
#[derive(Debug, Clone, PartialEq, Eq)]
pub struct Action {
    pub label: String,
    pub description: String,
    pub identifier: String,
}

/// A remark of a check run on some lines of a file.
#[derive(Debug, Clone, PartialEq, Eq)]
pub struct Annotation {
    pub path: String,
    pub start_line: u32,
    pub end_line: u32,
    pub start_column: Option<u32>,
    pub end_column: Option<u32>,
    pub annotation_level: AnnotationLevel,
    pub message: String,
    pub title: String,
    pub raw_details: String,
}

/// A picture in the report of a check run.
#[derive(Debug, Clone, PartialEq, Eq)]
pub struct Image {
    pub alt: String,
    pub image_url: String,
    pub caption: Option<String>,
}

/// What a check run is made with. In the JSON text whatever is absent is
/// left out.
#[derive(Debug, Clone, PartialEq, Eq)]
pub struct CheckRunOptions {
    pub name: String,
    pub head_sha: String,
    pub details_url: Option<String>,
    pub external_id: Option<String>,
    pub status: Option<CheckRunState>,
    pub started_at: Option<String>,
    pub conclusion: Option<Conclusion>,
    pub completed_at: Option<String>,
    pub output: Option<Output>,
    pub actions: Option<Vec<Action>>,
}

/// What a check run is changed with. In the JSON text whatever is absent is
/// left out.
#[derive(Debug, Clone, PartialEq, Eq)]
pub struct CheckRunUpdateOptions {
    pub name: Option<String>,
    pub details_url: Option<String>,
    pub external_id: Option<String>,
    pub status: Option<CheckRunState>,
    pub started_at: Option<String>,
    pub conclusion: Option<Conclusion>,
    pub completed_at: Option<String>,
    pub output: Option<Output>,
    pub actions: Option<Vec<Action>>,
}

/// A check run as the server describes it.
#[derive(Debug, Clone, PartialEq, Eq)]
pub struct CheckRun {
    pub id: i32,
    pub name: String,
    pub head_sha: String,
    pub url: String,
    pub check_suite: CheckSuite,
    pub details_url: Option<String>,
    pub external_id: Option<String>,
    pub status: Option<CheckRunState>,
    pub started_at: Option<String>,
    pub conclusion: Option<Conclusion>,
    pub completed_at: Option<String>,
    pub actions: Option<Vec<Action>>,
}

/// The check suites of a commit as the server lists them.
#[derive(Debug, Clone, PartialEq, Eq)]
pub struct CheckSuiteResponse {
    pub total_count: u32,
    pub check_suites: Vec<CheckSuite>,
}

/// A check suite as the server describes it.
#[derive(Debug, Clone, PartialEq, Eq)]
pub struct CheckSuite {
    pub id: u32,
    pub head_branch: String,
    pub head_sha: String,
    pub status: String,
    pub conclusion: String,
    pub app: CheckSuiteApp,
    pub created_at: Timestamp,
    pub updated_at: Timestamp,
}

/// The application that a check suite belongs to.
#[derive(Debug, Clone, PartialEq, Eq)]
pub struct CheckSuiteApp {
    pub id: u32,
    pub slug: String,
    pub name: String,
}

impl Default for CheckSuiteApp {
    fn default() -> (r: CheckSuiteApp)
        ensures
            r.id == 0,
            r.slug@.len() == 0,
            r.name@.len() == 0,
    {
        CheckSuiteApp { id: 0, slug: String::new(), name: String::new() }
    }
}

/// The options that narrow a listing of check suites.
#[derive(Debug, PartialEq, Eq)]
pub struct CheckSuiteListOptions {
    params: Params,
}

impl View for CheckSuiteListOptions {
    type V = Pairs;

    closed spec fn view(&self) -> Pairs {
        self.params@
    }
}

impl Default for CheckSuiteListOptions {
    fn default() -> (r: CheckSuiteListOptions)
        ensures
            r@ == Pairs::empty(),
    {
        CheckSuiteListOptions { params: Params::new() }
    }
}

impl CheckSuiteListOptions {
    pub fn builder() -> (r: CheckSuiteListOptionsBuilder)
        ensures
            r@ == Pairs::empty(),
    {
        CheckSuiteListOptionsBuilder::default()
    }

    /// The options as the query of an address, or nothing where no option
    /// is set.
    pub fn serialize(&self) -> (r: Option<String>)
        ensures
            text_of(r) == serialized(self@),
            distinct_keys(self@),
    {
        self.params.serialize()
    }
}

/// Builds a [`CheckSuiteListOptions`] step by step.
pub struct CheckSuiteListOptionsBuilder(CheckSuiteListOptions);

impl View for CheckSuiteListOptionsBuilder {
    type V = Pairs;

    closed spec fn view(&self) -> Pairs {
        self.0@
    }
}

impl Default for CheckSuiteListOptionsBuilder {
    fn default() -> (r: CheckSuiteListOptionsBuilder)
        ensures
            r@ == Pairs::empty(),
    {
        CheckSuiteListOptionsBuilder(CheckSuiteListOptions::default())
    }
}

impl CheckSuiteListOptionsBuilder {
    /// Asks for pages of `n` items.
    pub fn per_page(&mut self, n: usize) -> (r: &mut Self)
        ensures
            r@ == put(old(self)@, "per_page"@, decimal(n as nat)),
            distinct_keys(r@),
            *final(self) == *final(r),
    {
        self.0.params.insert("per_page", decimal_string(n as u64));
        self
    }

    /// Asks for what has changed since the given time.
    pub fn since(&mut self, since: &str) -> (r: &mut Self)
        ensures
            r@ == put(old(self)@, "since"@, since@),
            distinct_keys(r@),
            *final(self) == *final(r),
    {
        self.0.params.insert("since", String::from_str(since));
        self
    }

    pub fn build(&self) -> (r: CheckSuiteListOptions)
        ensures
            r@ == self@,
            distinct_keys(r@),
    {
        CheckSuiteListOptions { params: self.0.params.clone() }
    }
}

} // verus!
