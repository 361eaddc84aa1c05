use hubcaps::issues::{
    IssueAssignees, IssueLabels, IssueListOptions, IssueOptions, IssueRef, Issues, Sort, State,
};
use hubcaps::{Credentials, Error, Github, Method, SortDirection};

fn client() -> Github {
    Github::new("tester/1.0", Some(Credentials::Token("s3cret".to_string())))
}

#[test]
fn default_state() {
    let default: State = Default::default();
    assert_eq!(default, State::Open)
}

#[test]
fn issue_list_reqs() {
    fn test_serialize(tests: Vec<(IssueListOptions, Option<String>)>) {
        for test in tests {
            let (k, v) = test;
            assert_eq!(k.serialize(), v);
        }
    }
    let tests = vec![
        (IssueListOptions::builder().build(), None),
        (
            IssueListOptions::builder().state(State::Closed).build(),
            Some("state=closed".to_owned()),
        ),
        (
            IssueListOptions::builder()
                .labels(vec!["foo", "bar"])
                .build(),
            Some("labels=foo%2Cbar".to_owned()),
        ),
    ];
    test_serialize(tests)
}

#[test]
fn sort_default() {
    let default: Sort = Default::default();
    assert_eq!(default, Sort::Created)
}

#[test]
fn sort_display() {
    for (k, v) in &[
        (Sort::Created, "created"),
        (Sort::Updated, "updated"),
        (Sort::Comments, "comments"),
    ] {
        assert_eq!(k.to_string(), *v)
    }
}

#[test]
fn state_display() {
    assert_eq!(State::Open.to_string(), "open");
    assert_eq!(State::Closed.to_string(), "closed");
    assert_eq!(State::All.to_string(), "all");
}

#[test]
fn direction_display_and_default() {
    assert_eq!(SortDirection::Asc.to_string(), "asc");
    assert_eq!(SortDirection::Desc.to_string(), "desc");
    assert_eq!(SortDirection::default(), SortDirection::Asc);
}

#[test]
fn list_options_keep_first_order_and_replace_in_place() {
    let options = IssueListOptions::builder()
        .state(State::Open)
        .per_page(100)
        .state(State::All)
        .build();
    assert_eq!(options.serialize(), Some("state=all&per_page=100".to_owned()));
}

#[test]
fn list_options_every_parameter() {
    let options = IssueListOptions::builder()
        .state(State::Closed)
        .sort(Sort::Updated)
        .desc()
        .assignee("octo cat")
        .creator("a&b")
        .mentioned("m")
        .labels(vec!["bug"])
        .since("2015-05-15T00:00:00Z")
        .per_page(7)
        .build();
    assert_eq!(
        options.serialize(),
        Some(
            "state=closed&sort=updated&direction=desc&assignee=octo+cat&creator=a%26b\
             &mentioned=m&labels=bug&since=2015-05-15T00%3A00%3A00Z&per_page=7"
                .to_owned()
        )
    );
}

#[test]
fn list_options_asc_then_direction() {
    let options = IssueListOptions::builder().asc().build();
    assert_eq!(options.serialize(), Some("direction=asc".to_owned()));
    let options = IssueListOptions::builder()
        .asc()
        .direction(SortDirection::Desc)
        .build();
    assert_eq!(options.serialize(), Some("direction=desc".to_owned()));
}

#[test]
fn list_options_empty_labels() {
    let none: Vec<&str> = Vec::new();
    let options = IssueListOptions::builder().labels(none).build();
    assert_eq!(options.serialize(), Some("labels=".to_owned()));
}

#[test]
fn issues_list_without_options() {
    let issues = Issues::new(client(), "rust-lang", "rust");
    let request = issues.list(&IssueListOptions::builder().build()).unwrap();
    assert_eq!(request.method, Method::Get);
    assert_eq!(request.url, "https://api.github.com/repos/rust-lang/rust/issues");
    assert_eq!(request.accept, "application/vnd.github+json");
    assert_eq!(request.user_agent, "tester/1.0");
    assert_eq!(request.authorization, Some("token s3cret".to_string()));
    assert_eq!(request.body, None);
}

#[test]
fn issues_list_with_options() {
    let issues = Issues::new(client(), "rust-lang", "rust");
    let options = IssueListOptions::builder().state(State::Closed).build();
    let request = issues.list(&options).unwrap();
    assert_eq!(
        request.url,
        "https://api.github.com/repos/rust-lang/rust/issues?state=closed"
    );
}

#[test]
fn issues_create_sends_the_encoded_options() {
    let issues = Issues::new(client(), "o", "r");
    let request = issues.create(Ok(b"{\"title\":\"t\"}".to_vec())).unwrap();
    assert_eq!(request.method, Method::Post);
    assert_eq!(request.url, "https://api.github.com/repos/o/r/issues");
    assert_eq!(request.body, Some(b"{\"title\":\"t\"}".to_vec()));
}

#[test]
fn issues_create_surfaces_the_encoding_failure() {
    let issues = Issues::new(client(), "o", "r");
    let outcome = issues.create(Err("key must be a string".to_string()));
    assert_eq!(
        outcome,
        Err(Error::Serialization("key must be a string".to_string()))
    );
}

#[test]
fn issue_ref_paths() {
    let issue = Issues::new(client(), "o", "r").get(42);
    assert_eq!(issue.path(""), "/repos/o/r/issues/42");
    assert_eq!(issue.path("/lock"), "/repos/o/r/issues/42/lock");
    assert_eq!(issue.labels().path(""), "/repos/o/r/issues/42/labels");
    assert_eq!(issue.assignees().path(""), "/repos/o/r/issues/42/assignees");
    assert_eq!(issue.comments().path(), "/repos/o/r/issues/42/comments");
}

#[test]
fn issue_number_extremes() {
    let zero = IssueRef::new(client(), "o", "r", 0);
    assert_eq!(zero.path(""), "/repos/o/r/issues/0");
    let largest = IssueRef::new(client(), "o", "r", u64::MAX);
    assert_eq!(largest.path(""), "/repos/o/r/issues/18446744073709551615");
}

#[test]
fn issue_get_open_close_edit() {
    let issue = IssueRef::new(client(), "o", "r", 7);
    let get = issue.get().unwrap();
    assert_eq!(get.method, Method::Get);
    assert_eq!(get.url, "https://api.github.com/repos/o/r/issues/7");
    let open = issue.open().unwrap();
    assert_eq!(open.method, Method::Patch);
    assert_eq!(open.body, Some(b"{\"state\":\"open\"}".to_vec()));
    let close = issue.close().unwrap();
    assert_eq!(close.method, Method::Patch);
    assert_eq!(close.body, Some(b"{\"state\":\"closed\"}".to_vec()));
    let edit = issue.edit(Ok(b"{}".to_vec())).unwrap();
    assert_eq!(edit.method, Method::Patch);
    assert_eq!(edit.body, Some(b"{}".to_vec()));
    assert_eq!(
        issue.edit(Err("no".to_string())),
        Err(Error::Serialization("no".to_string()))
    );
}

#[test]
fn labels_add_and_set_send_a_json_array() {
    let labels = IssueLabels::new(client(), "o", "r", 3);
    let add = labels.add(vec!["bug", "needs \"triage\""]).unwrap();
    assert_eq!(add.method, Method::Post);
    assert_eq!(add.url, "https://api.github.com/repos/o/r/issues/3/labels");
    assert_eq!(add.body, Some(b"[\"bug\",\"needs \\\"triage\\\"\"]".to_vec()));
    let set = labels.set(Vec::new()).unwrap();
    assert_eq!(set.method, Method::Put);
    assert_eq!(set.body, Some(b"[]".to_vec()));
}

#[test]
fn labels_remove_escapes_the_name() {
    let labels = IssueLabels::new(client(), "o", "r", 3);
    let remove = labels.remove("help wanted/50%").unwrap();
    assert_eq!(remove.method, Method::Delete);
    assert_eq!(
        remove.url,
        "https://api.github.com/repos/o/r/issues/3/labels/help%20wanted%2F50%25"
    );
    let clear = labels.clear().unwrap();
    assert_eq!(clear.method, Method::Delete);
    assert_eq!(clear.url, "https://api.github.com/repos/o/r/issues/3/labels");
    assert_eq!(clear.body, None);
}

#[test]
fn assignees_add_sends_an_object() {
    let assignees = IssueAssignees::new(client(), "o", "r", 3);
    let add = assignees.add(vec!["alice", "bob"]).unwrap();
    assert_eq!(add.method, Method::Post);
    assert_eq!(add.url, "https://api.github.com/repos/o/r/issues/3/assignees");
    assert_eq!(
        add.body,
        Some(b"{\"assignees\":[\"alice\",\"bob\"]}".to_vec())
    );
}

#[test]
fn issue_options_new() {
    let options = IssueOptions::new(
        "a title",
        Some("a body"),
        None,
        Some(3),
        vec!["x", "y"],
        Some("open"),
    );
    assert_eq!(options.title, "a title");
    assert_eq!(options.body, Some("a body".to_string()));
    assert_eq!(options.assignee, None);
    assert_eq!(options.milestone, Some(3));
    assert_eq!(options.labels, vec!["x".to_string(), "y".to_string()]);
    assert_eq!(options.state, Some("open".to_string()));
}

#[test]
fn issues_iter_starts_at_the_listing() {
    let issues = Issues::new(client(), "o", "r");
    let options = IssueListOptions::builder().per_page(100).build();
    let mut stream = issues.iter(&options);
    match stream.pull() {
        hubcaps::Step::Fetch(request) => {
            assert_eq!(
                request.url,
                "https://api.github.com/repos/o/r/issues?per_page=100"
            );
            assert_eq!(request.method, Method::Get);
        }
        other => panic!("expected a request, got {:?}", other),
    }
}
