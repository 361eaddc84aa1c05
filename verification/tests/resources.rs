use hubcaps::actions::Actions;
use hubcaps::checks::{CheckRuns, CheckSuiteApp, CheckSuiteListOptions};
use hubcaps::comments::{CommentListOptions, Comments};
use hubcaps::query::Params;
use hubcaps::repo_commits::{RepoCommits, Stats};
use hubcaps::review_comments::{ReviewCommentListOptions, ReviewCommentOptions, ReviewComments};
use hubcaps::text::{chars_of, decimal_string, has_char, join_strs};
use hubcaps::time::Timestamp;
use hubcaps::users::{Contributors, User, Users};
use hubcaps::utils::{percent_encode, AsciiSet, PATH_SEGMENT};
use hubcaps::workflows::{WorkflowDispatchOptions, Workflows};
use hubcaps::{Error, Github, Method, Step};

fn client() -> Github {
    Github::new("agent", None)
}

#[test]
fn users_calls() {
    let users = Users::new(client());
    assert_eq!(
        users.authenticated().unwrap().url,
        "https://api.github.com/user"
    );
    assert_eq!(
        users.authenticated_emails().unwrap().url,
        "https://api.github.com/user/emails"
    );
    assert_eq!(
        users.get("octocat").unwrap().url,
        "https://api.github.com/users/octocat"
    );
}

#[test]
fn contributors_calls() {
    let contributors = Contributors::new(client(), "o", "r");
    assert_eq!(
        contributors.list().unwrap().url,
        "https://api.github.com/repos/o/r/contributors"
    );
    let mut stream = contributors.iter();
    match stream.pull() {
        Step::Fetch(request) => assert_eq!(
            request.url,
            "https://api.github.com/repos/o/r/contributors"
        ),
        other => panic!("expected a request, got {:?}", other),
    }
}

#[test]
fn null_user_is_nobody() {
    let read: Result<Option<User>, String> = Ok(None);
    let user = hubcaps::users::deserialize_null_user::deserialize(read).unwrap();
    assert_eq!(user, User::default());
    assert_eq!(user.login, "");
    assert_eq!(user.id, 0);
    assert!(!user.site_admin);
    let mut somebody = User::default();
    somebody.login = "octocat".to_string();
    somebody.id = 1;
    let read: Result<Option<User>, String> = Ok(Some(somebody.clone()));
    assert_eq!(
        hubcaps::users::deserialize_null_user::deserialize(read),
        Ok(somebody)
    );
}

#[test]
fn user_of_another_shape_stays_a_failure() {
    let read: Result<Option<User>, String> = Err("invalid type: integer `5`".to_string());
    assert_eq!(
        hubcaps::users::deserialize_null_user::deserialize(read),
        Err("invalid type: integer `5`".to_string())
    );
}

#[test]
fn null_string_and_null_count() {
    let read: Result<Option<String>, ()> = Ok(None);
    assert_eq!(
        hubcaps::checks::deserialize_null_string::deserialize(read),
        Ok(String::new())
    );
    let read: Result<Option<String>, ()> = Ok(Some("success".to_string()));
    assert_eq!(
        hubcaps::checks::deserialize_null_string::deserialize(read),
        Ok("success".to_string())
    );
    let read: Result<Option<u32>, ()> = Ok(None);
    assert_eq!(hubcaps::checks::deserialize_null_u32::deserialize(read), Ok(0));
    let read: Result<Option<u32>, ()> = Ok(Some(12));
    assert_eq!(hubcaps::checks::deserialize_null_u32::deserialize(read), Ok(12));
}

#[test]
fn text_and_count_of_another_shape_stay_failures() {
    let read: Result<Option<String>, String> = Err("invalid type: integer `5`".to_string());
    assert_eq!(
        hubcaps::checks::deserialize_null_string::deserialize(read),
        Err("invalid type: integer `5`".to_string())
    );
    let read: Result<Option<u32>, String> = Err("invalid type: string \"x\"".to_string());
    assert_eq!(
        hubcaps::checks::deserialize_null_u32::deserialize(read),
        Err("invalid type: string \"x\"".to_string())
    );
}

#[test]
fn workflows_dispatch() {
    let workflows = Actions::new(client(), "o", "r").workflows();
    assert_eq!(workflows.path(""), "/repos/o/r/actions/workflows");
    let request = workflows
        .dispatch("ci.yml", Ok(b"{\"ref\":\"main\"}".to_vec()))
        .unwrap();
    assert_eq!(request.method, Method::Post);
    assert_eq!(
        request.url,
        "https://api.github.com/repos/o/r/actions/workflows/ci.yml/dispatches"
    );
    assert_eq!(request.body, Some(b"{\"ref\":\"main\"}".to_vec()));
    assert_eq!(
        Workflows::new(client(), "o", "r").dispatch("1", Err("e".to_string())),
        Err(Error::Serialization("e".to_string()))
    );
}

#[test]
fn workflow_dispatch_options_builder() {
    let mut inputs = Params::new();
    inputs.insert("level", "debug".to_string());
    let mut expected = Params::new();
    expected.insert("level", "debug".to_string());
    let options = WorkflowDispatchOptions::builder()
        .reference("main")
        .inputs(inputs)
        .build();
    assert_eq!(options.refv, "main");
    assert_eq!(options.inputs, expected);
    let empty = WorkflowDispatchOptions::builder().build();
    assert_eq!(empty, WorkflowDispatchOptions::default());
    assert!(empty.inputs.is_empty());
}

#[test]
fn params_insert_replaces_and_appends() {
    let mut params = Params::new();
    assert!(params.is_empty());
    assert_eq!(params.serialize(), None);
    params.insert("a", "1".to_string());
    params.insert("b", "2".to_string());
    params.insert("a", "3".to_string());
    assert!(!params.is_empty());
    assert_eq!(params.serialize(), Some("a=3&b=2".to_string()));
    assert_eq!(params.clone().serialize(), Some("a=3&b=2".to_string()));
}

#[test]
fn comments_calls() {
    let comments = Comments::new(client(), "o", "r", 5);
    assert_eq!(comments.path(), "/repos/o/r/issues/5/comments");
    let create = comments.create(Ok(b"{\"body\":\"hi\"}".to_vec())).unwrap();
    assert_eq!(create.method, Method::Post);
    assert_eq!(create.body, Some(b"{\"body\":\"hi\"}".to_vec()));
    assert_eq!(
        comments.create(Err("e".to_string())),
        Err(Error::Serialization("e".to_string()))
    );
    let options = CommentListOptions::builder()
        .per_page(50)
        .since("2020-01-01T00:00:00Z")
        .build();
    assert_eq!(
        options.serialize(),
        Some("per_page=50&since=2020-01-01T00%3A00%3A00Z".to_string())
    );
    assert_eq!(
        comments.list(&options).unwrap().url,
        "https://api.github.com/repos/o/r/issues/5/comments?per_page=50&since=2020-01-01T00%3A00%3A00Z"
    );
    assert_eq!(
        comments
            .list(&CommentListOptions::builder().build())
            .unwrap()
            .url,
        "https://api.github.com/repos/o/r/issues/5/comments"
    );
    let mut stream = comments.iter(&options);
    assert!(matches!(stream.pull(), Step::Fetch(_)));
}

#[test]
fn review_comments_calls() {
    let comments = ReviewComments::new(client(), "o", "r", 9);
    assert_eq!(comments.path(), "/repos/o/r/pulls/9/comments");
    let options = ReviewCommentListOptions::builder().per_page(1).build();
    assert_eq!(options.serialize(), Some("per_page=1".to_string()));
    assert_eq!(
        comments.list(&options).unwrap().url,
        "https://api.github.com/repos/o/r/pulls/9/comments?per_page=1"
    );
    assert_eq!(
        comments.create(Ok(Vec::new())).unwrap().method,
        Method::Post
    );
    assert_eq!(ReviewCommentListOptions::builder().build().serialize(), None);
    let blank = ReviewCommentOptions::default();
    assert_eq!(blank.body, "");
    assert_eq!(blank.position, 0);
    let mut stream = comments.iter(&ReviewCommentListOptions::builder().build());
    match stream.pull() {
        Step::Fetch(request) => assert_eq!(
            request.url,
            "https://api.github.com/repos/o/r/pulls/9/comments"
        ),
        other => panic!("expected a request, got {:?}", other),
    }
}

#[test]
fn check_runs_calls() {
    let runs = CheckRuns::new(client(), "o", "r");
    assert_eq!(runs.path(""), "/repos/o/r/check-runs");
    let create = runs.create(Ok(b"{}".to_vec())).unwrap();
    assert_eq!(create.method, Method::Post);
    assert_eq!(create.url, "https://api.github.com/repos/o/r/check-runs");
    assert_eq!(
        create.accept,
        "application/vnd.github.antiope-preview+json"
    );
    assert_eq!(
        runs.create(Err("e".to_string())),
        Err(Error::Serialization("e".to_string()))
    );
    let update = runs.update("17", Ok(b"{}".to_vec())).unwrap();
    assert_eq!(update.method, Method::Post);
    assert_eq!(update.url, "https://api.github.com/repos/o/r/check-runs/17");
    assert_eq!(
        runs.update("17", Err("e".to_string())),
        Err(Error::Serialization("e".to_string()))
    );
    let list = runs.list_for_suite("4").unwrap();
    assert_eq!(list.method, Method::Get);
    assert_eq!(
        list.url,
        "https://api.github.com/repos/o/r/check-runs/4/check-runs"
    );
    assert_eq!(list.accept, "application/vnd.github.antiope-preview+json");
    assert_eq!(CheckSuiteApp::default().id, 0);
}

#[test]
fn repo_commits_list() {
    let commits = RepoCommits::new(client(), "o", "r");
    assert_eq!(
        commits.list("", "", None).unwrap().url,
        "https://api.github.com/repos/o/r/commits?&per_page=100"
    );
    let since = Timestamp::new(1431648000, 0).unwrap();
    assert_eq!(
        commits.list("src/lib.rs", "main", Some(since)).unwrap().url,
        "https://api.github.com/repos/o/r/commits?&per_page=100&path=src%2Flib.rs\
         &since=2015-05-15T00%3A00%3A00%2B00%3A00&sha=main"
    );
    assert_eq!(
        commits.list("src", "main", None).unwrap().url,
        "https://api.github.com/repos/o/r/commits?&per_page=100&path=src&sha=main"
    );
    assert_eq!(
        commits.list("a&b", "", None).unwrap().url,
        "https://api.github.com/repos/o/r/commits?&per_page=100&path=a%26b"
    );
    assert_eq!(
        commits.list("a=b c", "my branch#1+x", None).unwrap().url,
        "https://api.github.com/repos/o/r/commits?&per_page=100&path=a%3Db+c\
         &sha=my+branch%231%2Bx"
    );
    assert_eq!(
        commits.list("", "", Some(since)).unwrap().url,
        "https://api.github.com/repos/o/r/commits?&per_page=100\
         &since=2015-05-15T00%3A00%3A00%2B00%3A00"
    );
    assert_eq!(
        commits.list("", "main", None).unwrap().url,
        "https://api.github.com/repos/o/r/commits?&per_page=100&sha=main"
    );
    assert_eq!(
        commits.get("abc123").unwrap().url,
        "https://api.github.com/repos/o/r/commits/abc123"
    );
    let options = CheckSuiteListOptions::builder().per_page(10).build();
    assert_eq!(
        commits.list_check_suites("abc", &options).unwrap().url,
        "https://api.github.com/repos/o/r/commits/abc/check-suites?per_page=10"
    );
    assert_eq!(
        commits
            .list_check_suites("abc", &CheckSuiteListOptions::builder().build())
            .unwrap()
            .url,
        "https://api.github.com/repos/o/r/commits/abc/check-suites"
    );
    let mut stream = commits.iter();
    match stream.pull() {
        Step::Fetch(request) => {
            assert_eq!(request.url, "https://api.github.com/repos/o/r/commits")
        }
        other => panic!("expected a request, got {:?}", other),
    }
    assert_eq!(Stats::default().total, 0);
}

#[test]
fn timestamps() {
    let instant = Timestamp::new(1431648000, 0).unwrap();
    assert_eq!(instant.to_rfc3339(), "2015-05-15T00:00:00+00:00");
    assert_eq!(instant.timestamp(), 1431648000);
    assert_eq!(instant.timestamp_subsec_nanos(), 0);
    let fraction = Timestamp::new(0, 500_000_000).unwrap();
    assert_eq!(fraction.to_rfc3339(), "1970-01-01T00:00:00.500+00:00");
    let before = Timestamp::new(-1, 0).unwrap();
    assert_eq!(before.to_rfc3339(), "1969-12-31T23:59:59+00:00");
    assert_eq!(Timestamp::new(i64::MAX, 0), None);
    assert_eq!(Timestamp::new(i64::MIN, 0), None);
    assert_eq!(Timestamp::new(0, 2_000_000_000), None);
}

#[test]
fn percent_encoding_of_path_segments() {
    assert_eq!(percent_encode("bug", PATH_SEGMENT), "bug");
    assert_eq!(percent_encode("", PATH_SEGMENT), "");
    assert_eq!(percent_encode("a b", PATH_SEGMENT), "a%20b");
    assert_eq!(percent_encode("a/b%c?d#e", PATH_SEGMENT), "a%2Fb%25c%3Fd%23e");
    assert_eq!(percent_encode("{x}`<>\"", PATH_SEGMENT), "%7Bx%7D%60%3C%3E%22");
    assert_eq!(percent_encode("\u{e9}", PATH_SEGMENT), "%C3%A9");
    assert_eq!(percent_encode("\u{0}\u{1f}\u{7f}~", PATH_SEGMENT), "%00%1F%7F~");
    assert_eq!(percent_encode("a/b%c?d#e", AsciiSet::Path), "a/b%c%3Fd%23e");
    assert_eq!(percent_encode("a/b%c?d#e <", AsciiSet::Fragment), "a/b%c?d#e%20%3C");
    assert!(PATH_SEGMENT.should_escape(b'/'));
    assert!(!AsciiSet::Path.should_escape(b'/'));
    assert!(!PATH_SEGMENT.should_escape(b'a'));
    assert!(PATH_SEGMENT.should_escape(0x80));
}

#[test]
fn text_helpers() {
    assert_eq!(decimal_string(0), "0");
    assert_eq!(decimal_string(9), "9");
    assert_eq!(decimal_string(10), "10");
    assert_eq!(decimal_string(1234567890), "1234567890");
    assert_eq!(decimal_string(u64::MAX), "18446744073709551615");
    assert_eq!(join_strs(&vec!["a", "b", "c"], ", "), "a, b, c");
    assert_eq!(join_strs(&vec!["a"], ","), "a");
    assert_eq!(join_strs(&Vec::new(), ","), "");
    assert_eq!(chars_of("h\u{e9}"), vec!['h', '\u{e9}']);
    assert!(has_char("a?b", '?'));
    assert!(!has_char("ab", '?'));
    assert!(!has_char("", '?'));
}
