//! Issues of a repository.
use crate::comments::Comments;
use crate::credentials::AuthenticationConstraint;
use crate::errors::Error;
use crate::github::{Github, Method, Request};
use crate::json::{encode_strings, json_strings};
use crate::labels::Label;
use crate::media::MediaType;
use crate::query::{distinct_keys, join_query, put, serialized, with_query, Pairs, Params};
use crate::scope::{item_path, item_root, repo_path, repo_root, ItemView, RepoView};
use crate::sorting::SortDirection;
use crate::stream::{PageStream, StreamView};
use crate::text::{decimal, decimal_string, join, join_strs, text_of, views};
use crate::time::Timestamp;
use crate::users::User;
use crate::utils::{percent_encode, percent_encoded, PATH_SEGMENT};
use vstd::prelude::*;
use vstd::string::{StrSliceExecFns, StringExecFns};
use vstd::utf8::encode_utf8;

verus! {

/// The states of issues and pull requests that a listing can ask for.
#[derive(Clone, Copy, Debug, PartialEq, Eq, Structural)]
pub enum State {
    /// Only what is open.
    Open,
    /// Only what is closed.
    Closed,
    /// Everything, open or closed.
    All,
}

impl State {
    /// The word that asks the server for this state.
    pub open spec fn name(self) -> Seq<char> {
        match self {
            State::Open => "open"@,
            State::Closed => "closed"@,
            State::All => "all"@,
        }
    }

    /// Writes the word that asks the server for this state.
    pub fn to_string(&self) -> (r: String)
        ensures
            r@ == self.name(),
    {
        match self {
            State::Open => String::from_str("open"),
            State::Closed => String::from_str("closed"),
            State::All => String::from_str("all"),
        }
    }
}

impl Default for State {
    fn default() -> (r: State)
        ensures
            r == State::Open,
    {
        State::Open
    }
}

/// What a listing of issues can be sorted by.
#[derive(Clone, Copy, Debug, PartialEq, Eq, Structural)]
pub enum Sort {
    /// The time at which the issue was made.
    Created,
    /// The time at which the issue was last changed.
    Updated,
    /// The number of comments.
    Comments,
}

impl Sort {
    /// The word that asks the server for this order.
    pub open spec fn name(self) -> Seq<char> {
        match self {
            Sort::Created => "created"@,
            Sort::Updated => "updated"@,
            Sort::Comments => "comments"@,
        }
    }

    /// Writes the word that asks the server for this order.
    pub fn to_string(&self) -> (r: String)
        ensures
            r@ == self.name(),
    {
        match self {
            Sort::Created => String::from_str("created"),
            Sort::Updated => String::from_str("updated"),
            Sort::Comments => String::from_str("comments"),
        }
    }
}

impl Default for Sort {
    fn default() -> (r: Sort)
        ensures
            r == Sort::Created,
    {
        Sort::Created
    }
}

/// The path of the issue `number` of a repository, or of what lies at
/// `more` below it.
pub open spec fn issue_path(owner: Seq<char>, repo: Seq<char>, number: u64, more: Seq<char>) -> Seq<
    char,
> {
    item_path(owner, repo, "/issues/"@, number) + more
}

/// The path of the assignees of an issue, or of what lies at `more` below
/// them.
pub open spec fn assignees_path(
    owner: Seq<char>,
    repo: Seq<char>,
    number: u64,
    more: Seq<char>,
) -> Seq<char> {
    item_path(owner, repo, "/issues/"@, number) + "/assignees"@ + more
}

/// The path of the labels of an issue, or of what lies at `more` below
/// them.
pub open spec fn labels_path(owner: Seq<char>, repo: Seq<char>, number: u64, more: Seq<char>) -> Seq<
    char,
> {
    item_path(owner, repo, "/issues/"@, number) + "/labels"@ + more
}

/// The path of the issues of a repository, or of what lies at `more` below
/// them.
pub open spec fn issues_path(owner: Seq<char>, repo: Seq<char>, more: Seq<char>) -> Seq<char> {
    repo_path(owner, repo) + "/issues"@ + more
}

/// The JSON object whose one member is named `assignees` and holds the
/// array with the text `array`.
pub open spec fn assignees_object(array: Seq<u8>) -> Seq<u8> {
    encode_utf8("{\"assignees\":"@) + array + encode_utf8("}"@)
}

/// The calls that act on the assignees of an issue.
pub struct IssueAssignees {
    github: Github,
    owner: String,
    repo: String,
    number: u64,
}

impl View for IssueAssignees {
    type V = ItemView;

    closed spec fn view(&self) -> ItemView {
        ItemView {
            github: self.github@,
            owner: self.owner@,
            repo: self.repo@,
            number: self.number,
        }
    }
}

impl IssueAssignees {
    pub fn new(github: Github, owner: &str, repo: &str, number: u64) -> (r: IssueAssignees)
        ensures
            r@ == (ItemView { github: github@, owner: owner@, repo: repo@, number }),
    {
        IssueAssignees {
            github,
            owner: String::from_str(owner),
            repo: String::from_str(repo),
            number,
        }
    }

    pub fn path(&self, more: &str) -> (r: String)
        ensures
            r@ == assignees_path(self@.owner, self@.repo, self@.number, more@),
    {
        let mut out = item_root(self.owner.as_str(), self.repo.as_str(), "/issues/", self.number);
        out.append("/assignees");
        out.append(more);
        out
    }

    /// Prepares the call that adds assignees to the issue; its answer holds
    /// the [`Issue`]. The body is a JSON object with the names as its one
    /// member, `assignees`.
    pub fn add(&self, assignees: Vec<&str>) -> (r: Result<Request, Error>)
        ensures
            r matches Ok(request) && request@ == self@.github.call(
                Method::Post,
                assignees_path(self@.owner, self@.repo, self@.number, ""@),
                Some(assignees_object(json_strings(views(assignees@)))),
                MediaType::Json,
            ),
    {
        let path = self.path("");
        let encoded = match encode_strings(&assignees) {
            Ok(array) => {
                let mut array = array;
                let mut body = "{\"assignees\":".as_bytes_vec();
                body.append(&mut array);
                let mut close = "}".as_bytes_vec();
                body.append(&mut close);
                Ok(body)
            },
            Err(text) => Err(text),
        };
        self.github.request_encoded(
            Method::Post,
            path.as_str(),
            encoded,
            MediaType::Json,
            AuthenticationConstraint::Unconstrained,
        )
    }
}

/// The calls that act on the labels of an issue.
pub struct IssueLabels {
    github: Github,
    owner: String,
    repo: String,
    number: u64,
}

impl View for IssueLabels {
    type V = ItemView;

    closed spec fn view(&self) -> ItemView {
        ItemView {
            github: self.github@,
            owner: self.owner@,
            repo: self.repo@,
            number: self.number,
        }
    }
}

impl IssueLabels {
    pub fn new(github: Github, owner: &str, repo: &str, number: u64) -> (r: IssueLabels)
        ensures
            r@ == (ItemView { github: github@, owner: owner@, repo: repo@, number }),
    {
        IssueLabels {
            github,
            owner: String::from_str(owner),
            repo: String::from_str(repo),
            number,
        }
    }

    pub fn path(&self, more: &str) -> (r: String)
        ensures
            r@ == labels_path(self@.owner, self@.repo, self@.number, more@),
    {
        let mut out = item_root(self.owner.as_str(), self.repo.as_str(), "/issues/", self.number);
        out.append("/labels");
        out.append(more);
        out
    }

    /// Prepares the call with the method `method` whose body is the JSON
    /// array of `labels`.
    fn send(&self, method: Method, labels: &Vec<&str>) -> (r: Result<Request, Error>)
        ensures
            r matches Ok(request) && request@ == self@.github.call(
                method,
                labels_path(self@.owner, self@.repo, self@.number, ""@),
                Some(json_strings(views(labels@))),
                MediaType::Json,
            ),
    {
        let path = self.path("");
        self.github.request_encoded(
            method,
            path.as_str(),
            encode_strings(labels),
            MediaType::Json,
            AuthenticationConstraint::Unconstrained,
        )
    }

    /// Prepares the call that adds labels to the issue; its answer holds
    /// the list of the issue's [`Label`]s.
    pub fn add(&self, labels: Vec<&str>) -> (r: Result<Request, Error>)
        ensures
            r matches Ok(request) && request@ == self@.github.call(
                Method::Post,
                labels_path(self@.owner, self@.repo, self@.number, ""@),
                Some(json_strings(views(labels@))),
                MediaType::Json,
            ),
    {
        self.send(Method::Post, &labels)
    }

    /// Prepares the call that takes the label `label` off the issue; its
    /// answer has no body. The label's name is percent-encoded as one segment
    /// of the path.
    pub fn remove(&self, label: &str) -> (r: Result<Request, Error>)
        ensures
            r matches Ok(request) && request@ == self@.github.call(
                Method::Delete,
                labels_path(
                    self@.owner,
                    self@.repo,
                    self@.number,
                    "/"@ + percent_encoded(label@, PATH_SEGMENT),
                ),
                None,
                MediaType::Json,
            ),
    {
        let label = percent_encode(label, PATH_SEGMENT);
        let mut more = String::from_str("/");
        more.append(label.as_str());
        self.github.delete(self.path(more.as_str()).as_str())
    }

    /// Prepares the call that replaces the labels of the issue by `labels`;
    /// with no labels it clears them. Its answer holds the list of the issue's
    /// [`Label`]s.
    pub fn set(&self, labels: Vec<&str>) -> (r: Result<Request, Error>)
        ensures
            r matches Ok(request) && request@ == self@.github.call(
                Method::Put,
                labels_path(self@.owner, self@.repo, self@.number, ""@),
                Some(json_strings(views(labels@))),
                MediaType::Json,
            ),
    {
        self.send(Method::Put, &labels)
    }

    /// Prepares the call that takes every label off the issue; its answer
    /// has no body.
    pub fn clear(&self) -> (r: Result<Request, Error>)
        ensures
            r matches Ok(request) && request@ == self@.github.call(
                Method::Delete,
                labels_path(self@.owner, self@.repo, self@.number, ""@),
                None,
                MediaType::Json,
            ),
    {
        let path = self.path("");
        self.github.delete(path.as_str())
    }
}

/// The calls that act on one issue.
pub struct IssueRef {
    github: Github,
    owner: String,
    repo: String,
    number: u64,
}

impl View for IssueRef {
    type V = ItemView;

    closed spec fn view(&self) -> ItemView {
        ItemView {
            github: self.github@,
            owner: self.owner@,
            repo: self.repo@,
            number: self.number,
        }
    }
}

impl IssueRef {
    pub fn new(github: Github, owner: &str, repo: &str, number: u64) -> (r: IssueRef)
        ensures
            r@ == (ItemView { github: github@, owner: owner@, repo: repo@, number }),
    {
        IssueRef {
            github,
            owner: String::from_str(owner),
            repo: String::from_str(repo),
            number,
        }
    }

    /// Prepares the call that reads the issue; its answer holds an
    /// [`Issue`].
    pub fn get(&self) -> (r: Result<Request, Error>)
        ensures
            r matches Ok(request) && request@ == self@.github.call(
                Method::Get,
                issue_path(self@.owner, self@.repo, self@.number, ""@),
                None,
                MediaType::Json,
            ),
    {
        let path = self.path("");
        self.github.get(path.as_str())
    }

    pub fn path(&self, more: &str) -> (r: String)
        ensures
            r@ == issue_path(self@.owner, self@.repo, self@.number, more@),
    {
        let mut out = item_root(self.owner.as_str(), self.repo.as_str(), "/issues/", self.number);
        out.append(more);
        out
    }

    /// The calls that act on the labels of this issue.
    pub fn labels(&self) -> (r: IssueLabels)
        ensures
            r@ == self@,
    {
        IssueLabels::new(
            self.github.clone(),
            self.owner.as_str(),
            self.repo.as_str(),
            self.number,
        )
    }

    /// The calls that act on the assignees of this issue.
    pub fn assignees(&self) -> (r: IssueAssignees)
        ensures
            r@ == self@,
    {
        IssueAssignees::new(
            self.github.clone(),
            self.owner.as_str(),
            self.repo.as_str(),
            self.number,
        )
    }

    /// Prepares the call that opens the issue: an edit that sets the state
    /// to `open` and nothing else. Its answer holds the [`Issue`].
    pub fn open(&self) -> (r: Result<Request, Error>)
        ensures
            r matches Ok(request) && request@ == self@.github.call(
                Method::Patch,
                issue_path(self@.owner, self@.repo, self@.number, ""@),
                Some(encode_utf8("{\"state\":\"open\"}"@)),
                MediaType::Json,
            ),
    {
        self.edit(Ok("{\"state\":\"open\"}".as_bytes_vec()))
    }

    /// Prepares the call that closes the issue: an edit that sets the state
    /// to `closed` and nothing else. Its answer holds the [`Issue`].
    pub fn close(&self) -> (r: Result<Request, Error>)
        ensures
            r matches Ok(request) && request@ == self@.github.call(
                Method::Patch,
                issue_path(self@.owner, self@.repo, self@.number, ""@),
                Some(encode_utf8("{\"state\":\"closed\"}"@)),
                MediaType::Json,
            ),
    {
        self.edit(Ok("{\"state\":\"closed\"}".as_bytes_vec()))
    }

    /// Prepares the call that edits the issue. `is` is the JSON text of an
    /// [`IssueOptions`], or the encoder's account of why there is none; in
    /// that case the call fails before anything is sent. The answer holds the
    /// [`Issue`].
    pub fn edit(&self, is: Result<Vec<u8>, String>) -> (r: Result<Request, Error>)
        ensures
            self@.github.sends(
                Method::Patch,
                issue_path(self@.owner, self@.repo, self@.number, ""@),
                is,
                MediaType::Json,
                AuthenticationConstraint::Unconstrained,
                r,
            ),
    {
        let path = self.path("");
        self.github.request_encoded(
            Method::Patch,
            path.as_str(),
            is,
            MediaType::Json,
            AuthenticationConstraint::Unconstrained,
        )
    }

    /// The calls that act on the comments of this issue.
    pub fn comments(&self) -> (r: Comments)
        ensures
            r@ == self@,
    {
        Comments::new(self.github.clone(), self.owner.as_str(), self.repo.as_str(), self.number)
    }
}

/// The calls that act on the issues of a repository.
pub struct Issues {
    github: Github,
    owner: String,
    repo: String,
}

impl View for Issues {
    type V = RepoView;

    closed spec fn view(&self) -> RepoView {
        RepoView { github: self.github@, owner: self.owner@, repo: self.repo@ }
    }
}

impl Issues {
    pub fn new(github: Github, owner: &str, repo: &str) -> (r: Issues)
        ensures
            r@ == (RepoView { github: github@, owner: owner@, repo: repo@ }),
    {
        Issues { github, owner: String::from_str(owner), repo: String::from_str(repo) }
    }

    pub fn path(&self, more: &str) -> (r: String)
        ensures
            r@ == issues_path(self@.owner, self@.repo, more@),
    {
        let mut out = repo_root(self.owner.as_str(), self.repo.as_str());
        out.append("/issues");
        out.append(more);
        out
    }

    /// The calls that act on the issue `number`.
    pub fn get(&self, number: u64) -> (r: IssueRef)
        ensures
            r@ == (ItemView {
                github: self@.github,
                owner: self@.owner,
                repo: self@.repo,
                number,
            }),
    {
        IssueRef::new(self.github.clone(), self.owner.as_str(), self.repo.as_str(), number)
    }

    /// Prepares the call that makes a new issue. `is` is the JSON text of
    /// an [`IssueOptions`], or the encoder's account of why there is none; in
    /// that case the call fails before anything is sent. The answer holds the
    /// [`Issue`].
    pub fn create(&self, is: Result<Vec<u8>, String>) -> (r: Result<Request, Error>)
        ensures
            self@.github.sends(
                Method::Post,
                issues_path(self@.owner, self@.repo, ""@),
                is,
                MediaType::Json,
                AuthenticationConstraint::Unconstrained,
                r,
            ),
    {
        let path = self.path("");
        self.github.request_encoded(
            Method::Post,
            path.as_str(),
            is,
            MediaType::Json,
            AuthenticationConstraint::Unconstrained,
        )
    }

    /// Prepares the call that reads the first page of the listing that
    /// `options` describe; its answer holds a list of [`Issue`].
    pub fn list(&self, options: &IssueListOptions) -> (r: Result<Request, Error>)
        ensures
            r matches Ok(request) && request@ == self@.github.call(
                Method::Get,
                with_query(
                    issues_path(self@.owner, self@.repo, ""@),
                    serialized(options@),
                ),
                None,
                MediaType::Json,
            ),
    {
        let path = self.path("");
        let uri = join_query(path, options.serialize());
        self.github.get(uri.as_str())
    }

    /// A stream over the whole listing that `options` describe, page after
    /// page. Ask for pages of a hundred to spend the fewest requests.
    pub fn iter(&self, options: &IssueListOptions) -> (r: PageStream<Issue>)
        ensures
            r@ == StreamView::<Issue>::fresh(
                self@.github,
                with_query(
                    issues_path(self@.owner, self@.repo, ""@),
                    serialized(options@),
                ),
            ),
    {
        let path = self.path("");
        let uri = join_query(path, options.serialize());
        self.github.get_stream(uri.as_str())
    }
}

/// The options that narrow a listing of issues. Without a page size the
/// server hands out pages of thirty; it accepts up to a hundred.
#[derive(Debug, PartialEq, Eq)]
pub struct IssueListOptions {
    params: Params,
}

impl View for IssueListOptions {
    type V = Pairs;

    closed spec fn view(&self) -> Pairs {
        self.params@
    }
}

impl Default for IssueListOptions {
    fn default() -> (r: IssueListOptions)
        ensures
            r@ == Pairs::empty(),
    {
        IssueListOptions { params: Params::new() }
    }
}

impl IssueListOptions {
    pub fn builder() -> (r: IssueListOptionsBuilder)
        ensures
            r@ == Pairs::empty(),
    {
        IssueListOptionsBuilder::default()
    }

    /// The options as the query of an address, or nothing where no option
    /// is set.
    pub fn serialize(&self) -> (r: Option<String>)
        ensures
            text_of(r) == serialized(self@),
            distinct_keys(self@),
    {
        self.params.serialize()
    }
}

/// Builds an [`IssueListOptions`] step by step.
pub struct IssueListOptionsBuilder(IssueListOptions);

impl View for IssueListOptionsBuilder {
    type V = Pairs;

    closed spec fn view(&self) -> Pairs {
        self.0@
    }
}

impl Default for IssueListOptionsBuilder {
    fn default() -> (r: IssueListOptionsBuilder)
        ensures
            r@ == Pairs::empty(),
    {
        IssueListOptionsBuilder(IssueListOptions::default())
    }
}

impl IssueListOptionsBuilder {
    pub fn state(&mut self, state: State) -> (r: &mut Self)
        ensures
            r@ == put(old(self)@, "state"@, state.name()),
            distinct_keys(r@),
            *final(self) == *final(r),
    {
        self.0.params.insert("state", state.to_string());
        self
    }

    pub fn sort(&mut self, sort: Sort) -> (r: &mut Self)
        ensures
            r@ == put(old(self)@, "sort"@, sort.name()),
            distinct_keys(r@),
            *final(self) == *final(r),
    {
        self.0.params.insert("sort", sort.to_string());
        self
    }

    pub fn asc(&mut self) -> (r: &mut Self)
        ensures
            r@ == put(old(self)@, "direction"@, SortDirection::Asc.name()),
            distinct_keys(r@),
            *final(self) == *final(r),
    {
        self.direction(SortDirection::Asc)
    }

    pub fn desc(&mut self) -> (r: &mut Self)
        ensures
            r@ == put(old(self)@, "direction"@, SortDirection::Desc.name()),
            distinct_keys(r@),
            *final(self) == *final(r),
    {
        self.direction(SortDirection::Desc)
    }

    pub fn direction(&mut self, direction: SortDirection) -> (r: &mut Self)
        ensures
            r@ == put(old(self)@, "direction"@, direction.name()),
            distinct_keys(r@),
            *final(self) == *final(r),
    {
        self.0.params.insert("direction", direction.to_string());
        self
    }

    pub fn assignee(&mut self, assignee: &str) -> (r: &mut Self)
        ensures
            r@ == put(old(self)@, "assignee"@, assignee@),
            distinct_keys(r@),
            *final(self) == *final(r),
    {
        self.0.params.insert("assignee", String::from_str(assignee));
        self
    }

    pub fn creator(&mut self, creator: &str) -> (r: &mut Self)
        ensures
            r@ == put(old(self)@, "creator"@, creator@),
            distinct_keys(r@),
            *final(self) == *final(r),
    {
        self.0.params.insert("creator", String::from_str(creator));
        self
    }

    pub fn mentioned(&mut self, mentioned: &str) -> (r: &mut Self)
        ensures
            r@ == put(old(self)@, "mentioned"@, mentioned@),
            distinct_keys(r@),
            *final(self) == *final(r),
    {
        self.0.params.insert("mentioned", String::from_str(mentioned));
        self
    }

    /// Asks for the issues that carry every one of `labels`: the parameter
    /// holds the names with commas between them.
    pub fn labels(&mut self, labels: Vec<&str>) -> (r: &mut Self)
        ensures
            r@ == put(old(self)@, "labels"@, join(views(labels@), ","@)),
            distinct_keys(r@),
            *final(self) == *final(r),
    {
        self.0.params.insert("labels", join_strs(&labels, ","));
        self
    }

    pub fn since(&mut self, since: &str) -> (r: &mut Self)
        ensures
            r@ == put(old(self)@, "since"@, since@),
            distinct_keys(r@),
            *final(self) == *final(r),
    {
        self.0.params.insert("since", String::from_str(since));
        self
    }

    pub fn per_page(&mut self, n: u32) -> (r: &mut Self)
        ensures
            r@ == put(old(self)@, "per_page"@, decimal(n as nat)),
            distinct_keys(r@),
            *final(self) == *final(r),
    {
        self.0.params.insert("per_page", decimal_string(n as u64));
        self
    }

    pub fn build(&self) -> (r: IssueListOptions)
        ensures
            r@ == self@,
            distinct_keys(r@),
    {
        IssueListOptions { params: self.0.params.clone() }
    }
}

/// What an issue is made or edited with. In the JSON text an empty title,
/// an empty list of labels and whatever is absent are left out.
#[derive(Debug, Clone, PartialEq, Eq)]
pub struct IssueOptions {
    pub title: String,
    pub body: Option<String>,
    pub assignee: Option<String>,
    pub milestone: Option<u64>,
    pub labels: Vec<String>,
    pub state: Option<String>,
}

/// The mathematical value of an [`IssueOptions`].
pub struct IssueOptionsView {
    pub title: Seq<char>,
    pub body: Option<Seq<char>>,
    pub assignee: Option<Seq<char>>,
    pub milestone: Option<u64>,
    pub labels: Seq<Seq<char>>,
    pub state: Option<Seq<char>>,
}

impl View for IssueOptions {
    type V = IssueOptionsView;

    open spec fn view(&self) -> IssueOptionsView {
        IssueOptionsView {
            title: self.title@,
            body: text_of(self.body),
            assignee: text_of(self.assignee),
            milestone: self.milestone,
            labels: self.labels@.map_values(|l: String| l@),
            state: text_of(self.state),
        }
    }
}

impl Default for IssueOptions {
    fn default() -> (r: IssueOptions)
        ensures
            r@ == (IssueOptionsView {
                title: Seq::empty(),
                body: None,
                assignee: None,
                milestone: None,
                labels: Seq::empty(),
                state: None,
            }),
    {
        let labels: Vec<String> = Vec::new();
        assert(labels@.map_values(|l: String| l@) =~= Seq::<Seq<char>>::empty());
        IssueOptions {
            title: String::new(),
            body: None,
            assignee: None,
            milestone: None,
            labels,
            state: None,
        }
    }
}

/// The characters of a string slice that may be absent.
pub open spec fn slice_of(text: Option<&str>) -> Option<Seq<char>> {
    match text {
        Some(t) => Some(t@),
        None => None,
    }
}

fn owned(text: Option<&str>) -> (r: Option<String>)
    ensures
        text_of(r) == slice_of(text),
{
    match text {
        Some(t) => Some(String::from_str(t)),
        None => None,
    }
}

impl IssueOptions {
    pub fn new(
        title: &str,
        body: Option<&str>,
        assignee: Option<&str>,
        milestone: Option<u64>,
        labels: Vec<&str>,
        state: Option<&str>,
    ) -> (r: IssueOptions)
        ensures
            r@ == (IssueOptionsView {
                title: title@,
                body: slice_of(body),
                assignee: slice_of(assignee),
                milestone,
                labels: views(labels@),
                state: slice_of(state),
            }),
    {
        let mut names: Vec<String> = Vec::new();
        let mut i: usize = 0;
        while i < labels.len()
            invariant
                i <= labels.len(),
                names@.map_values(|l: String| l@) == views(labels@).take(i as int),
            decreases labels.len() - i,
        {
            let ghost before = names@.map_values(|l: String| l@);
            names.push(String::from_str(labels[i]));
            assert(names@.map_values(|l: String| l@) =~= before.push(labels@[i as int]@));
            i += 1;
            assert(names@.map_values(|l: String| l@) =~= views(labels@).take(i as int));
        }
        assert(views(labels@).take(labels.len() as int) =~= views(labels@));
        IssueOptions {
            title: String::from_str(title),
            body: owned(body),
            assignee: owned(assignee),
            milestone,
            labels: names,
            state: owned(state),
        }
    }
}

/// An issue as the server describes it.
#[derive(Debug, Clone, PartialEq, Eq)]
pub struct Issue {
    pub id: u64,
    pub url: String,
    pub labels_url: String,
    pub comments_url: String,
    pub events_url: String,
    pub html_url: String,
    pub number: u64,
    pub state: String,
    pub title: String,
    pub body: Option<String>,
    pub user: User,
    pub labels: Vec<Label>,
    pub assignee: Option<User>,
    pub locked: bool,
    pub comments: u64,
    pub pull_request: Option<PullRef>,
    pub closed_at: Option<Timestamp>,
    pub created_at: Timestamp,
    pub updated_at: Timestamp,
    pub assignees: Vec<User>,
    pub closed_by: User,
}

/// The pull request that an issue stands for.
#[derive(Debug, Clone, PartialEq, Eq)]
pub struct PullRef {
    pub url: String,
    pub html_url: String,
    pub diff_url: String,
    pub patch_url: String,
}

} // verus!
