use hubcaps::{AuthenticationConstraint, Credentials, Error, Github, MediaType, Method};

#[test]
fn json_request_with_token() {
    let github = Github::new("agent", Some(Credentials::Token("abc".to_string())));
    let request = github.get("/user").unwrap();
    assert_eq!(request.method, Method::Get);
    assert_eq!(request.url, "https://api.github.com/user");
    assert_eq!(request.accept, "application/vnd.github+json");
    assert_eq!(request.user_agent, "agent");
    assert_eq!(request.authorization, Some("token abc".to_string()));
    assert_eq!(request.body, None);
}

#[test]
fn request_without_credentials() {
    let github = Github::host("https://ghe.example/api/v3", "agent", None);
    let request = github.delete("/repos/o/r").unwrap();
    assert_eq!(request.method, Method::Delete);
    assert_eq!(request.url, "https://ghe.example/api/v3/repos/o/r");
    assert_eq!(request.authorization, None);
}

#[test]
fn request_with_application_token() {
    let github = Github::new("agent", Some(Credentials::JWT("j.w.t".to_string())));
    let request = github
        .post_media(
            "/app/installations",
            b"{}".to_vec(),
            MediaType::Preview("machine-man"),
            AuthenticationConstraint::JWT,
        )
        .unwrap();
    assert_eq!(request.method, Method::Post);
    assert_eq!(request.authorization, Some("Bearer j.w.t".to_string()));
    assert_eq!(
        request.accept,
        "application/vnd.github.machine-man-preview+json"
    );
    assert_eq!(request.body, Some(b"{}".to_vec()));
}

#[test]
fn client_credentials_go_into_the_query() {
    let github = Github::new(
        "agent",
        Some(Credentials::Client("my id".to_string(), "s&cret".to_string())),
    );
    let plain = github.get("/user").unwrap();
    assert_eq!(
        plain.url,
        "https://api.github.com/user?client_id=my+id&client_secret=s%26cret"
    );
    assert_eq!(plain.authorization, None);
    let with_query = github.get("/user/repos?page=2").unwrap();
    assert_eq!(
        with_query.url,
        "https://api.github.com/user/repos?page=2&client_id=my+id&client_secret=s%26cret"
    );
}

#[test]
fn constraint_violation_yields_no_request() {
    let with_token = Github::new("agent", Some(Credentials::Token("abc".to_string())));
    let with_client = Github::new(
        "agent",
        Some(Credentials::Client("id".to_string(), "secret".to_string())),
    );
    let with_none = Github::new("agent", None);
    let mut sent = 0;
    for github in [with_token, with_client, with_none] {
        let outcome = github.post_media(
            "/app/installations/1/access_tokens",
            Vec::new(),
            MediaType::Json,
            AuthenticationConstraint::JWT,
        );
        if outcome.is_ok() {
            sent += 1;
        }
        assert_eq!(outcome, Err(Error::ConstraintViolation));
        let direct = github.request(
            Method::Get,
            "https://api.github.com/app",
            None,
            MediaType::Json,
            AuthenticationConstraint::JWT,
        );
        assert_eq!(direct, Err(Error::ConstraintViolation));
    }
    assert_eq!(sent, 0);
}

#[test]
fn constraint_checked_before_the_encoding_is_looked_at() {
    let github = Github::new("agent", None);
    let failed = github.request_encoded(
        Method::Post,
        "/x",
        Err("bad".to_string()),
        MediaType::Json,
        AuthenticationConstraint::JWT,
    );
    assert_eq!(failed, Err(Error::Serialization("bad".to_string())));
    let refused = github.request_encoded(
        Method::Post,
        "/x",
        Ok(Vec::new()),
        MediaType::Json,
        AuthenticationConstraint::JWT,
    );
    assert_eq!(refused, Err(Error::ConstraintViolation));
}

#[test]
fn unconstrained_accepts_every_credential() {
    for credentials in [
        None,
        Some(Credentials::Token("t".to_string())),
        Some(Credentials::Client("i".to_string(), "s".to_string())),
        Some(Credentials::JWT("j".to_string())),
    ] {
        let github = Github::new("agent", credentials);
        assert!(github
            .request(
                Method::Get,
                "https://api.github.com/",
                None,
                MediaType::Json,
                AuthenticationConstraint::Unconstrained,
            )
            .is_ok());
    }
}

#[test]
fn every_method_has_its_call() {
    let github = Github::new("agent", None);
    assert_eq!(github.get("/a").unwrap().method, Method::Get);
    assert_eq!(
        github.get_media("/a", MediaType::Preview("p")).unwrap().accept,
        "application/vnd.github.p-preview+json"
    );
    assert_eq!(github.post("/a", vec![1]).unwrap().method, Method::Post);
    assert_eq!(github.patch("/a", vec![2]).unwrap().method, Method::Patch);
    assert_eq!(
        github
            .patch_media("/a", vec![2], MediaType::Json)
            .unwrap()
            .body,
        Some(vec![2])
    );
    assert_eq!(github.put("/a", vec![3]).unwrap().method, Method::Put);
    assert_eq!(
        github.put_media("/a", vec![3], MediaType::Json).unwrap().body,
        Some(vec![3])
    );
    assert_eq!(github.delete("/a").unwrap().method, Method::Delete);
    assert_eq!(github.url("/a"), "https://api.github.com/a");
}

#[test]
fn media_type_default_and_header() {
    assert_eq!(MediaType::default(), MediaType::Json);
    assert_eq!(MediaType::Json.to_header(), "application/vnd.github+json");
    assert_eq!(
        MediaType::Preview("antiope").to_header(),
        "application/vnd.github.antiope-preview+json"
    );
}

#[test]
fn constraint_admits() {
    let jwt = Some(Credentials::JWT("j".to_string()));
    let token = Some(Credentials::Token("t".to_string()));
    assert!(AuthenticationConstraint::JWT.admits(&jwt));
    assert!(!AuthenticationConstraint::JWT.admits(&token));
    assert!(!AuthenticationConstraint::JWT.admits(&None));
    assert!(AuthenticationConstraint::Unconstrained.admits(&None));
    assert!(AuthenticationConstraint::Unconstrained.admits(&token));
}

#[test]
fn headers_of_a_request() {
    let with_token = Github::new("agent", Some(Credentials::Token("abc".to_string())));
    assert_eq!(
        with_token.get("/user").unwrap().headers(),
        vec![
            ("User-Agent".to_string(), "agent".to_string()),
            ("Accept".to_string(), "application/vnd.github+json".to_string()),
            ("Authorization".to_string(), "token abc".to_string()),
        ]
    );
    let without = Github::new("agent", None);
    assert_eq!(
        without.get("/user").unwrap().headers(),
        vec![
            ("User-Agent".to_string(), "agent".to_string()),
            ("Accept".to_string(), "application/vnd.github+json".to_string()),
        ]
    );
}

#[test]
fn method_names() {
    assert_eq!(Method::Get.as_str(), "GET");
    assert_eq!(Method::Post.as_str(), "POST");
    assert_eq!(Method::Put.as_str(), "PUT");
    assert_eq!(Method::Patch.as_str(), "PATCH");
    assert_eq!(Method::Delete.as_str(), "DELETE");
}
