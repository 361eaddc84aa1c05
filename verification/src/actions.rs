//! Actions of a repository.
use crate::github::Github;
use crate::scope::RepoView;
use crate::workflows::Workflows;
use vstd::prelude::*;
use vstd::string::StringExecFns;

verus! {

/// The way to the actions of a repository.
pub struct Actions {
    github: Github,
    owner: String,
    repo: String,
}

impl View for Actions {
    type V = RepoView;

    closed spec fn view(&self) -> RepoView {
        RepoView { github: self.github@, owner: self.owner@, repo: self.repo@ }
    }
}

impl Actions {
    pub fn new(github: Github, owner: &str, repo: &str) -> (r: Actions)
        ensures
            r@ == (RepoView { github: github@, owner: owner@, repo: repo@ }),
    {
        Actions { github, owner: String::from_str(owner), repo: String::from_str(repo) }
    }

    /// The calls that act on the workflows of this repository.
    pub fn workflows(&self) -> (r: Workflows)
        ensures
            r@ == self@,
    {
        Workflows::new(self.github.clone(), self.owner.as_str(), self.repo.as_str())
    }
}

} // verus!
