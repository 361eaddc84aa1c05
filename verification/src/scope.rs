//! What the resources of a repository are reached by.
use crate::github::GithubView;
use crate::text::push_decimal;
use crate::text::decimal;
use vstd::prelude::*;
use vstd::string::StringExecFns;

verus! {

/// A repository as a client sees it.
pub struct RepoView {
    pub github: GithubView,
    pub owner: Seq<char>,
    pub repo: Seq<char>,
}

/// A numbered item of a repository, an issue or a pull request, as a client
/// sees it.
pub struct ItemView {
    pub github: GithubView,
    pub owner: Seq<char>,
    pub repo: Seq<char>,
    pub number: u64,
}

/// The path of the repository `repo` of `owner`.
pub open spec fn repo_path(owner: Seq<char>, repo: Seq<char>) -> Seq<char> {
    "/repos/"@ + owner + "/"@ + repo
}

/// The path of the item `number` in the collection `collection` of a repository.
pub open spec fn item_path(owner: Seq<char>, repo: Seq<char>, collection: Seq<char>, number: u64) -> Seq<
    char,
> {
    repo_path(owner, repo) + collection + decimal(number as nat)
}

/// Writes the path of a repository.
pub fn repo_root(owner: &str, repo: &str) -> (r: String)
    ensures
        r@ == repo_path(owner@, repo@),
{
    let mut out = String::from_str("/repos/");
    out.append(owner);
    out.append("/");
    out.append(repo);
    out
}

/// Writes the path of a numbered item of a repository. `collection` names the
/// collection, with a slash at either end.
pub fn item_root(owner: &str, repo: &str, collection: &str, number: u64) -> (r: String)
    ensures
        r@ == item_path(owner@, repo@, collection@, number),
{
    let mut out = repo_root(owner, repo);
    out.append(collection);
    push_decimal(&mut out, number);
    out
}

} // verus!
