//! Workflows of a repository's actions.
use crate::credentials::AuthenticationConstraint;
use crate::errors::Error;
use crate::github::{Github, Method, Request};
use crate::media::MediaType;
use crate::query::{distinct_keys, Pairs, Params};
use crate::scope::{repo_path, repo_root, RepoView};
use vstd::prelude::*;
use vstd::string::StringExecFns;

verus! {

/// The calls that act on the workflows of a repository.
pub struct Workflows {
    github: Github,
    owner: String,
    repo: String,
}

impl View for Workflows {
    type V = RepoView;

    closed spec fn view(&self) -> RepoView {
        RepoView { github: self.github@, owner: self.owner@, repo: self.repo@ }
    }
}

/// The path of the workflows of a repository, or of what lies at `loc`
/// below them.
pub open spec fn workflows_path(owner: Seq<char>, repo: Seq<char>, loc: Seq<char>) -> Seq<char> {
    repo_path(owner, repo) + "/actions/workflows"@ + loc
}

impl Workflows {
    pub fn new(github: Github, owner: &str, repo: &str) -> (r: Workflows)
        ensures
            r@ == (RepoView { github: github@, owner: owner@, repo: repo@ }),
    {
        Workflows { github, owner: String::from_str(owner), repo: String::from_str(repo) }
    }

    pub fn path(&self, loc: &str) -> (r: String)
        ensures
            r@ == workflows_path(self@.owner, self@.repo, loc@),
    {
        let mut out = repo_root(self.owner.as_str(), self.repo.as_str());
        out.append("/actions/workflows");
        out.append(loc);
        out
    }

    /// Prepares the call that starts the workflow `id`, which is the
    /// workflow's number or the name of its file. `options` is the JSON text
    /// of a [`WorkflowDispatchOptions`], or the encoder's account of why there
    /// is none; in that case the call fails before anything is sent. The answer
    /// has no body.
    pub fn dispatch(&self, id: &str, options: Result<Vec<u8>, String>) -> (r: Result<
        Request,
        Error,
    >)
        ensures
            self@.github.sends(
                Method::Post,
                workflows_path(self@.owner, self@.repo, "/"@ + id@ + "/dispatches"@),
                options,
                MediaType::Json,
                AuthenticationConstraint::Unconstrained,
                r,
            ),
    {
        let mut loc = String::from_str("/");
        loc.append(id);
        loc.append("/dispatches");
        let uri = self.path(loc.as_str());
        self.github.request_encoded(
            Method::Post,
            uri.as_str(),
            options,
            MediaType::Json,
            AuthenticationConstraint::Unconstrained,
        )
    }
}

/// What starts a workflow: the reference to run it on, and the inputs that
/// the workflow's file asks for.
#[derive(Debug, PartialEq, Eq)]
pub struct WorkflowDispatchOptions {
    pub refv: String,
    pub inputs: Params,
}

/// The mathematical value of a [`WorkflowDispatchOptions`].
pub struct WorkflowDispatchOptionsView {
    pub refv: Seq<char>,
    pub inputs: Pairs,
}

impl View for WorkflowDispatchOptions {
    type V = WorkflowDispatchOptionsView;

    open spec fn view(&self) -> WorkflowDispatchOptionsView {
        WorkflowDispatchOptionsView { refv: self.refv@, inputs: self.inputs@ }
    }
}

impl Default for WorkflowDispatchOptions {
    fn default() -> (r: WorkflowDispatchOptions)
        ensures
            r@ == (WorkflowDispatchOptionsView { refv: Seq::empty(), inputs: Seq::empty() }),
    {
        WorkflowDispatchOptions { refv: String::new(), inputs: Params::new() }
    }
}

impl WorkflowDispatchOptions {
    pub fn builder() -> (r: WorkflowDispatchOptionsBuilder)
        ensures
            r@ == (WorkflowDispatchOptionsView { refv: Seq::empty(), inputs: Seq::empty() }),
    {
        WorkflowDispatchOptionsBuilder::default()
    }
}

/// Builds a [`WorkflowDispatchOptions`] step by step.
pub struct WorkflowDispatchOptionsBuilder(WorkflowDispatchOptions);

impl View for WorkflowDispatchOptionsBuilder {
    type V = WorkflowDispatchOptionsView;

    closed spec fn view(&self) -> WorkflowDispatchOptionsView {
        self.0@
    }
}

impl Default for WorkflowDispatchOptionsBuilder {
    fn default() -> (r: WorkflowDispatchOptionsBuilder)
        ensures
            r@ == (WorkflowDispatchOptionsView { refv: Seq::empty(), inputs: Seq::empty() }),
    {
        WorkflowDispatchOptionsBuilder(WorkflowDispatchOptions::default())
    }
}

impl WorkflowDispatchOptionsBuilder {
    /// Sets the branch or tag that the workflow runs on.
    pub fn reference(&mut self, reference: &str) -> (r: &mut Self)
        ensures
            r@ == (WorkflowDispatchOptionsView { refv: reference@, ..old(self)@ }),
            *final(self) == *final(r),
    {
        self.0.refv = String::from_str(reference);
        self
    }

    /// Sets the inputs of the workflow.
    pub fn inputs(&mut self, inputs: Params) -> (r: &mut Self)
        ensures
            r@ == (WorkflowDispatchOptionsView { inputs: inputs@, ..old(self)@ }),
            *final(self) == *final(r),
    {
        self.0.inputs = inputs;
        self
    }

    pub fn build(&self) -> (r: WorkflowDispatchOptions)
        ensures
            r@ == self@,
            distinct_keys(r@.inputs),
    {
        WorkflowDispatchOptions { inputs: self.0.inputs.clone(), refv: self.0.refv.clone() }
    }
}

} // verus!
