//! Commits of a repository.
use crate::checks::CheckSuiteListOptions;
use crate::errors::Error;
use crate::github::{Github, Method, Request};
use crate::media::MediaType;
use crate::query::{form_urlencode, form_urlencoded, join_query, pairs_of, serialized, with_query};
use crate::scope::{repo_path, repo_root, RepoView};
use crate::stream::{PageStream, StreamView};
use crate::time::Timestamp;
use crate::users::User;
use vstd::prelude::*;
use vstd::string::StringExecFns;

verus! {

/// The calls that act on the commits of a repository.
pub struct RepoCommits {
    github: Github,
    owner: String,
    repo: String,
}

impl View for RepoCommits {
    type V = RepoView;

    closed spec fn view(&self) -> RepoView {
        RepoView { github: self.github@, owner: self.owner@, repo: self.repo@ }
    }
}

/// The path of the commits of a repository, or of what lies at `more`
/// below them.
pub open spec fn commits_path(owner: Seq<char>, repo: Seq<char>, more: Seq<char>) -> Seq<char> {
    repo_path(owner, repo) + "/commits"@ + more
}

/// `&` and the pair of `name` and `value` in form encoding.
pub open spec fn narrowed(name: Seq<char>, value: Seq<char>) -> Seq<char> {
    "&"@ + form_urlencoded(seq![(name, value)])
}

/// `&` and the pair of `name` and `value` in form encoding, or nothing
/// where `value` is empty.
pub open spec fn filter(name: Seq<char>, value: Seq<char>) -> Seq<char> {
    if value.len() == 0 {
        Seq::empty()
    } else {
        narrowed(name, value)
    }
}

/// The query that narrows a listing of commits: pages of a hundred, and
/// then, as far as they are given, the path that the commits touch, the
/// instant that they are no older than, and the commit that they lead to.
/// Each of the three is one pair in form encoding, so that no value adds a
/// pair of its own or cuts the query short.
pub open spec fn commits_query(path: Seq<char>, commit_ref: Seq<char>, since: Option<Timestamp>) -> Seq<
    char,
> {
    "?&per_page=100"@ + filter("path"@, path) + (match since {
        Some(date) => narrowed("since"@, date.text()),
        None => Seq::empty(),
    }) + filter("sha"@, commit_ref)
}

/// Appends `&` and the pair of `name` and `value` in form encoding.
fn narrow(query: &mut String, name: &str, value: &str)
    ensures
        final(query)@ == old(query)@ + narrowed(name@, value@),
{
    let mut pairs: Vec<(String, String)> = Vec::new();
    pairs.push((String::from_str(name), String::from_str(value)));
    assert(pairs_of(pairs@) =~= seq![(name@, value@)]);
    let pair = form_urlencode(&pairs);
    query.append("&");
    query.append(pair.as_str());
    assert(query@ =~= old(query)@ + narrowed(name@, value@));
}

impl RepoCommits {
    pub fn new(github: Github, owner: &str, repo: &str) -> (r: RepoCommits)
        ensures
            r@ == (RepoView { github: github@, owner: owner@, repo: repo@ }),
    {
        RepoCommits { github, owner: String::from_str(owner), repo: String::from_str(repo) }
    }

    fn path(&self, more: &str) -> (r: String)
        ensures
            r@ == commits_path(self@.owner, self@.repo, more@),
    {
        let mut out = repo_root(self.owner.as_str(), self.repo.as_str());
        out.append("/commits");
        out.append(more);
        out
    }

    /// Prepares the call that reads the first hundred commits, narrowed to
    /// those that touch `path`, that lead to `commit_ref` and that are no older
    /// than `since`, as far as these are given; an empty text gives none. Each
    /// value goes into the query in form encoding. The answer holds a list of
    /// [`RepoCommit`].
    pub fn list(&self, path: &str, commit_ref: &str, since: Option<Timestamp>) -> (r: Result<
        Request,
        Error,
    >)
        ensures
            r matches Ok(request) && request@ == self@.github.call(
                Method::Get,
                commits_path(
                    self@.owner,
                    self@.repo,
                    commits_query(path@, commit_ref@, since),
                ),
                None,
                MediaType::Json,
            ),
    {
        let mut query = String::from_str("?&per_page=100");
        if !path.is_empty() {
            narrow(&mut query, "path", path);
        }
        assert(query@ =~= "?&per_page=100"@ + filter("path"@, path@));
        if let Some(date) = since {
            narrow(&mut query, "since", date.to_rfc3339().as_str());
        }
        if !commit_ref.is_empty() {
            narrow(&mut query, "sha", commit_ref);
        }
        assert(query@ =~= commits_query(path@, commit_ref@, since));
        self.github.get(self.path(query.as_str()).as_str())
    }

    /// A stream over all commits, page after page.
    pub fn iter(&self) -> (r: PageStream<RepoCommit>)
        ensures
            r@ == StreamView::<RepoCommit>::fresh(
                self@.github,
                commits_path(self@.owner, self@.repo, ""@),
            ),
    {
        self.github.get_stream(self.path("").as_str())
    }

    /// Prepares the call that reads the commit `commit_ref`; its answer
    /// holds a [`RepoCommit`].
    pub fn get(&self, commit_ref: &str) -> (r: Result<Request, Error>)
        ensures
            r matches Ok(request) && request@ == self@.github.call(
                Method::Get,
                commits_path(self@.owner, self@.repo, "/"@ + commit_ref@),
                None,
                MediaType::Json,
            ),
    {
        let mut more = String::from_str("/");
        more.append(commit_ref);
        self.github.get(self.path(more.as_str()).as_str())
    }

    /// Prepares the call that reads the check suites of the commit `ref_`,
    /// narrowed as `options` describe; its answer holds a
    /// [`crate::checks::CheckSuiteResponse`].
    pub fn list_check_suites(&self, ref_: &str, options: &CheckSuiteListOptions) -> (r: Result<
        Request,
        Error,
    >)
        ensures
            r matches Ok(request) && request@ == self@.github.call(
                Method::Get,
                with_query(
                    commits_path(self@.owner, self@.repo, "/"@ + ref_@ + "/check-suites"@),
                    serialized(options@),
                ),
                None,
                MediaType::Json,
            ),
    {
        let mut more = String::from_str("/");
        more.append(ref_);
        more.append("/check-suites");
        let uri = join_query(self.path(more.as_str()), options.serialize());
        self.github.get(uri.as_str())
    }
}

/// A commit of a repository as the server describes it.
#[derive(Debug, Clone, PartialEq, Eq)]
pub struct RepoCommit {
    pub url: String,
    pub sha: String,
    pub html_url: String,
    pub comments_url: String,
    pub commit: CommitDetails,
    pub author: User,
    pub committer: User,
    pub parents: Vec<CommitRef>,
    pub files: Vec<File>,
    pub stats: Stats,
}

/// What a commit consists of.
#[derive(Debug, Clone, PartialEq, Eq)]
pub struct CommitDetails {
    pub url: String,
    pub author: UserStamp,
    pub committer: Option<UserStamp>,
    pub message: String,
    pub tree: CommitRef,
    pub comment_count: u64,
}

/// A reference to a commit.
#[derive(Debug, Clone, PartialEq, Eq)]
pub struct CommitRef {
    pub url: String,
    pub sha: String,
}

/// Who did something to a commit, and when.
#[derive(Debug, Clone, PartialEq, Eq)]
pub struct UserStamp {
    pub name: String,
    pub email: String,
    pub date: Timestamp,
}

/// How many lines a commit has added and removed.
#[derive(Debug, Clone, Copy, PartialEq, Eq)]
pub struct Stats {
    pub additions: i64,
    pub deletions: i64,
    pub total: i64,
}

impl Default for Stats {
    fn default() -> (r: Stats)
        ensures
            r == (Stats { additions: 0, deletions: 0, total: 0 }),
    {
        Stats { additions: 0, deletions: 0, total: 0 }
    }
}

/// A file that a commit has changed.
#[derive(Debug, Clone, PartialEq, Eq)]
pub struct File {
    pub filename: String,
    pub status: String,
}

} // verus!
