use hubcaps::{ClientError, Error, Exchange, FieldErr, Page, Response};

fn answered(status: u16, body: &[u8]) -> Exchange {
    Exchange::Completed(Response {
        status,
        headers: Vec::new(),
        body: body.to_vec(),
    })
}

#[test]
fn not_found_is_a_status_error_with_the_servers_account() {
    let body = b"{\"message\": \"Not Found\"}";
    let outcome =
        answered(404, body).entity::<u32>(Err("invalid type: map, expected u32".to_string()));
    assert_eq!(
        outcome,
        Err(Error::Status {
            code: 404,
            error: Some(ClientError {
                message: "Not Found".to_string(),
                errors: None,
            }),
            body: body.to_vec(),
        })
    );
}

#[test]
fn unreadable_error_body_is_kept_as_it_came() {
    let body = b"<html>Bad Gateway</html>";
    let outcome = answered(502, body).unit();
    assert_eq!(
        outcome,
        Err(Error::Status {
            code: 502,
            error: None,
            body: body.to_vec(),
        })
    );
}

#[test]
fn success_with_a_body_of_the_wrong_shape_is_a_serialization_error() {
    let body = b"{\"unexpected\": true}";
    let outcome = answered(200, body).entity::<u32>(Err("missing field".to_string()));
    assert_eq!(outcome, Err(Error::Serialization("missing field".to_string())));
}

#[test]
fn success_with_a_decoded_body_is_the_value() {
    let outcome = answered(200, b"7").entity(Ok(7u32));
    assert_eq!(outcome, Ok(7));
    let created = answered(201, b"8").entity(Ok(8u32));
    assert_eq!(created, Ok(8));
}

#[test]
fn transport_failure_wins_over_everything() {
    let outcome = Exchange::Failed("connection refused".to_string()).entity(Ok(1u32));
    assert_eq!(
        outcome,
        Err(Error::Transport("connection refused".to_string()))
    );
    let unit = Exchange::Failed("timed out".to_string()).unit();
    assert_eq!(unit, Err(Error::Transport("timed out".to_string())));
}

#[test]
fn empty_success_needs_no_decoding() {
    assert_eq!(answered(204, b"").unit(), Ok(()));
    assert_eq!(answered(200, b"not json").unit(), Ok(()));
}

#[test]
fn bounds_of_success() {
    assert_eq!(hubcaps::response::succeeded(199), false);
    assert_eq!(hubcaps::response::succeeded(200), true);
    assert_eq!(hubcaps::response::succeeded(299), true);
    assert_eq!(hubcaps::response::succeeded(300), false);
    assert_eq!(hubcaps::response::succeeded(304), false);
    assert_eq!(hubcaps::response::succeeded(0), false);
    assert_eq!(hubcaps::response::succeeded(u16::MAX), false);
    assert!(matches!(
        answered(199, b"").unit(),
        Err(Error::Status { code: 199, .. })
    ));
    assert!(matches!(
        answered(300, b"").unit(),
        Err(Error::Status { code: 300, .. })
    ));
}

#[test]
fn classify_hands_back_the_response() {
    let response = Response {
        status: 200,
        headers: vec![(
            "Link".to_string(),
            "<https://h/2>; rel=\"next\"".to_string(),
        )],
        body: b"[]".to_vec(),
    };
    assert_eq!(
        Exchange::Completed(response.clone()).classify(),
        Ok(response)
    );
}

#[test]
fn page_keeps_the_link_header() {
    let exchange = Exchange::Completed(Response {
        status: 200,
        headers: vec![
            ("Content-Type".to_string(), "application/json".to_string()),
            (
                "Link".to_string(),
                "<https://h/2>; rel=\"next\"".to_string(),
            ),
        ],
        body: b"[1,2]".to_vec(),
    });
    assert_eq!(
        exchange.page(Ok(vec![1u8, 2u8])),
        Ok(Page {
            items: vec![1u8, 2u8],
            link: Some("<https://h/2>; rel=\"next\"".to_string()),
        })
    );
    let broken = answered(200, b"{}").page::<u8>(Err("not a list".to_string()));
    assert_eq!(broken, Err(Error::Serialization("not a list".to_string())));
    let refused = answered(403, b"").page::<u8>(Ok(Vec::new()));
    assert_eq!(
        refused,
        Err(Error::Status {
            code: 403,
            error: None,
            body: Vec::new(),
        })
    );
}

#[test]
fn status_error_carries_field_errors() {
    let body = b"{\"message\": \"Validation Failed\", \"errors\": [\
        {\"resource\": \"Issue\", \"field\": \"title\", \"code\": \"missing_field\"},\
        {\"resource\": \"Label\", \"code\": \"custom\", \"message\": \"no\", \
         \"documentation_url\": \"https://docs\"}],\
        \"documentation_url\": \"https://docs\"}";
    let account = ClientError {
        message: "Validation Failed".to_string(),
        errors: Some(vec![
            FieldErr {
                resource: "Issue".to_string(),
                field: Some("title".to_string()),
                code: "missing_field".to_string(),
                message: None,
                documentation_url: None,
            },
            FieldErr {
                resource: "Label".to_string(),
                field: None,
                code: "custom".to_string(),
                message: Some("no".to_string()),
                documentation_url: Some("https://docs".to_string()),
            },
        ]),
    };
    assert_eq!(ClientError::decode(body), Some(account.clone()));
    let outcome = answered(422, body).unit();
    assert_eq!(
        outcome,
        Err(Error::Status {
            code: 422,
            error: Some(account),
            body: body.to_vec(),
        })
    );
}

#[test]
fn accounts_of_other_shapes() {
    assert_eq!(ClientError::decode(b""), None);
    assert_eq!(ClientError::decode(b"not json"), None);
    assert_eq!(ClientError::decode(b"[]"), None);
    assert_eq!(ClientError::decode(b"\"Not Found\""), None);
    assert_eq!(ClientError::decode(b"{}"), None);
    assert_eq!(ClientError::decode(b"{\"message\": 404}"), None);
    assert_eq!(ClientError::decode(b"{\"message\": null}"), None);
    assert_eq!(ClientError::decode(b"{\"message\": \"m\""), None);
    let plain = Some(ClientError {
        message: "m".to_string(),
        errors: None,
    });
    assert_eq!(ClientError::decode(b"{\"message\": \"m\"}"), plain);
    assert_eq!(
        ClientError::decode(b"{\"message\": \"m\", \"errors\": null}"),
        plain
    );
    assert_eq!(
        ClientError::decode(b"{\"message\": \"m\", \"errors\": \"many\"}"),
        plain
    );
    assert_eq!(
        ClientError::decode(b"{\"message\": \"m\", \"errors\": [{\"resource\": \"r\"}]}"),
        plain
    );
    assert_eq!(
        ClientError::decode(b"{\"message\": \"m\", \"errors\": []}"),
        Some(ClientError {
            message: "m".to_string(),
            errors: Some(Vec::new()),
        })
    );
    assert_eq!(
        ClientError::decode(b"{\"message\": \"\\u00e9\\n\"}"),
        Some(ClientError {
            message: "\u{e9}\n".to_string(),
            errors: None,
        })
    );
}

#[test]
fn faults_and_accounts_from_their_members() {
    let text = |t: &str| Some(t.to_string());
    assert_eq!(
        FieldErr::from_members(text("Issue"), None, text("missing"), None, None),
        Some(FieldErr {
            resource: "Issue".to_string(),
            field: None,
            code: "missing".to_string(),
            message: None,
            documentation_url: None,
        })
    );
    assert_eq!(
        FieldErr::from_members(None, text("f"), text("c"), text("m"), text("d")),
        None
    );
    assert_eq!(
        FieldErr::from_members(text("r"), text("f"), None, text("m"), text("d")),
        None
    );
    assert_eq!(FieldErr::decode(b"{\"errors\": [{\"resource\": \"r\", \"code\": \"c\"}]}", 1), None);
    assert_eq!(
        FieldErr::decode(b"{\"errors\": [{\"resource\": \"r\", \"code\": \"c\"}]}", 0),
        FieldErr::from_members(text("r"), None, text("c"), None, None)
    );
    assert_eq!(ClientError::from_members(None, Some(Vec::new())), None);
    assert_eq!(
        ClientError::from_members(text("m"), None),
        Some(ClientError {
            message: "m".to_string(),
            errors: None,
        })
    );
    let response = Response {
        status: 500,
        headers: Vec::new(),
        body: b"oops".to_vec(),
    };
    assert_eq!(
        response.refusal(None),
        Error::Status {
            code: 500,
            error: None,
            body: b"oops".to_vec(),
        }
    );
}

#[test]
fn headers_are_found_whatever_their_case() {
    let response = Response {
        status: 200,
        headers: vec![
            ("content-type".to_string(), "application/json".to_string()),
            ("LINK".to_string(), "first".to_string()),
            ("Link".to_string(), "second".to_string()),
            ("Linked".to_string(), "other".to_string()),
        ],
        body: Vec::new(),
    };
    assert_eq!(response.header("link"), Some("first".to_string()));
    assert_eq!(response.header("Link"), Some("first".to_string()));
    assert_eq!(
        response.header("Content-Type"),
        Some("application/json".to_string())
    );
    assert_eq!(response.header("linke"), None);
    assert_eq!(response.header("lin"), None);
    assert_eq!(response.header(""), None);
    assert_eq!(response.header("l\u{131}nk"), None);
    let page = Exchange::Completed(response).page(Ok(vec![1u8]));
    assert_eq!(
        page,
        Ok(Page {
            items: vec![1u8],
            link: Some("first".to_string()),
        })
    );
}

#[test]
fn page_without_a_link_header() {
    let page = answered(200, b"[]").page::<u8>(Ok(Vec::new()));
    assert_eq!(
        page,
        Ok(Page {
            items: Vec::new(),
            link: None,
        })
    );
}
