use hubcaps::{
    AuthenticationConstraint, Credentials, Error, Exchange, Github, MediaType, Method, Page,
    PageStream, Request, Response, Step,
};

/// A server that holds a listing as pages, each under its address.
struct Server {
    pages: Vec<(String, Vec<&'static str>, Option<String>)>,
    fetches: usize,
}

impl Server {
    fn new(sizes: &[usize]) -> Server {
        let names = [
            "A", "B", "C", "D", "E", "F", "G", "H", "I", "J", "K", "L", "M", "N", "O", "P",
        ];
        let mut pages = Vec::new();
        let mut used = 0;
        for (i, size) in sizes.iter().enumerate() {
            let url = if i == 0 {
                "https://api.github.com/items".to_string()
            } else {
                format!("https://api.github.com/items?page={}", i + 1)
            };
            let link = if i + 1 < sizes.len() {
                Some(format!(
                    "<https://api.github.com/items?page={}>; rel=\"next\", \
                     <https://api.github.com/items?page={}>; rel=\"last\"",
                    i + 2,
                    sizes.len()
                ))
            } else if sizes.len() > 1 {
                Some("<https://api.github.com/items>; rel=\"first\"".to_string())
            } else {
                None
            };
            pages.push((url, names[used..used + size].to_vec(), link));
            used += size;
        }
        Server { pages, fetches: 0 }
    }

    fn answer(&mut self, request: &Request) -> Result<Page<&'static str>, Error> {
        self.fetches += 1;
        assert_eq!(request.method, Method::Get);
        for (url, items, link) in &self.pages {
            if *url == request.url {
                return Ok(Page {
                    items: items.clone(),
                    link: link.clone(),
                });
            }
        }
        Err(Error::Status {
            code: 404,
            error: None,
            body: Vec::new(),
        })
    }
}

fn stream() -> PageStream<&'static str> {
    Github::new("agent", None).get_stream("/items")
}

/// Pulls one item, sending whatever requests the stream asks for.
fn next(
    stream: &mut PageStream<&'static str>,
    server: &mut Server,
) -> Option<Result<&'static str, Error>> {
    let mut step = stream.pull();
    loop {
        match step {
            Step::Item(item) => return Some(Ok(item)),
            Step::Done => return None,
            Step::Failed(error) => return Some(Err(error)),
            Step::Pending => panic!("a request was left unanswered"),
            Step::Fetch(request) => {
                let outcome = server.answer(&request);
                step = stream.deliver(outcome);
            }
        }
    }
}

fn drain(stream: &mut PageStream<&'static str>, server: &mut Server) -> Vec<&'static str> {
    let mut out = Vec::new();
    while let Some(item) = next(stream, server) {
        out.push(item.unwrap());
    }
    out
}

#[test]
fn two_pages_yield_three_items_in_two_fetches() {
    let mut server = Server::new(&[2, 1]);
    let mut stream = stream();
    assert_eq!(drain(&mut stream, &mut server), vec!["A", "B", "C"]);
    assert_eq!(server.fetches, 2);
    assert_eq!(next(&mut stream, &mut server), None);
    assert_eq!(server.fetches, 2);
}

#[test]
fn every_page_is_fetched_once_and_in_order() {
    for sizes in [
        vec![1],
        vec![3],
        vec![2, 2],
        vec![3, 3, 1],
        vec![1, 1, 1, 1],
        vec![0],
        vec![2, 0, 3],
        vec![0, 0, 1],
        vec![4, 4, 4, 4],
    ] {
        let mut server = Server::new(&sizes);
        let mut stream = stream();
        let total: usize = sizes.iter().sum();
        let names = [
            "A", "B", "C", "D", "E", "F", "G", "H", "I", "J", "K", "L", "M", "N", "O", "P",
        ];
        assert_eq!(drain(&mut stream, &mut server), names[..total].to_vec());
        assert_eq!(server.fetches, sizes.len());
    }
}

#[test]
fn construction_fetches_nothing() {
    let server = Server::new(&[2, 2]);
    let stream = stream();
    assert_eq!(server.fetches, 0);
    assert!(!stream.is_awaiting());
}

#[test]
fn partial_consumption_fetches_only_what_is_needed() {
    for (size, pages, pulled) in [
        (2usize, 3usize, 1usize),
        (2, 3, 2),
        (2, 3, 3),
        (2, 3, 5),
        (3, 2, 4),
        (1, 5, 3),
        (4, 2, 4),
    ] {
        let sizes = vec![size; pages];
        let mut server = Server::new(&sizes);
        let mut stream = stream();
        for _ in 0..pulled {
            assert!(next(&mut stream, &mut server).is_some());
        }
        assert_eq!(server.fetches, (pulled + size - 1) / size);
        assert!(server.fetches <= pages);
    }
}

#[test]
fn single_page_with_only_last_is_exhausted_after_its_items() {
    let mut server = Server {
        pages: vec![(
            "https://api.github.com/items".to_string(),
            vec!["A", "B"],
            Some("<https://api.github.com/items?page=1>; rel=\"last\"".to_string()),
        )],
        fetches: 0,
    };
    let mut stream = stream();
    assert_eq!(next(&mut stream, &mut server), Some(Ok("A")));
    assert_eq!(next(&mut stream, &mut server), Some(Ok("B")));
    assert_eq!(next(&mut stream, &mut server), None);
    assert_eq!(next(&mut stream, &mut server), None);
    assert_eq!(server.fetches, 1);
}

#[test]
fn failure_is_passed_on_once_and_ends_the_stream() {
    let mut server = Server {
        pages: vec![(
            "https://api.github.com/items".to_string(),
            vec!["A"],
            Some("<https://api.github.com/gone>; rel=\"next\"".to_string()),
        )],
        fetches: 0,
    };
    let mut stream = stream();
    assert_eq!(next(&mut stream, &mut server), Some(Ok("A")));
    assert_eq!(
        next(&mut stream, &mut server),
        Some(Err(Error::Status {
            code: 404,
            error: None,
            body: Vec::new(),
        }))
    );
    assert_eq!(server.fetches, 2);
    assert_eq!(next(&mut stream, &mut server), None);
    assert_eq!(next(&mut stream, &mut server), None);
    assert_eq!(server.fetches, 2);
}

#[test]
fn failure_drops_what_was_buffered() {
    let mut stream = stream();
    assert!(matches!(stream.pull(), Step::Fetch(_)));
    let step = stream.deliver(Err(Error::Transport("reset".to_string())));
    assert_eq!(step, Step::Failed(Error::Transport("reset".to_string())));
    assert_eq!(stream.pull(), Step::Done);
}

#[test]
fn one_request_at_a_time() {
    let mut stream = stream();
    assert!(!stream.is_awaiting());
    let first = stream.pull();
    assert!(matches!(first, Step::Fetch(_)));
    assert!(stream.is_awaiting());
    assert_eq!(stream.pull(), Step::Pending);
    assert_eq!(stream.pull(), Step::Pending);
    let step = stream.deliver(Ok(Page {
        items: vec!["A"],
        link: None,
    }));
    assert_eq!(step, Step::Item("A"));
    assert!(!stream.is_awaiting());
    assert_eq!(stream.pull(), Step::Done);
}

#[test]
fn an_outcome_that_nothing_waits_for_is_dropped() {
    let mut stream = stream();
    let step = stream.deliver(Ok(Page {
        items: vec!["Z"],
        link: None,
    }));
    match step {
        Step::Fetch(request) => assert_eq!(request.url, "https://api.github.com/items"),
        other => panic!("expected the first request, got {:?}", other),
    }
    let step = stream.deliver(Ok(Page {
        items: vec!["A"],
        link: None,
    }));
    assert_eq!(step, Step::Item("A"));
    let step = stream.deliver(Err(Error::ConstraintViolation));
    assert_eq!(step, Step::Done);
}

#[test]
fn empty_page_with_a_next_link_asks_for_the_next_page() {
    let mut stream = stream();
    assert!(matches!(stream.pull(), Step::Fetch(_)));
    let step = stream.deliver(Ok(Page {
        items: Vec::new(),
        link: Some("<https://api.github.com/items?page=2>; rel=\"next\"".to_string()),
    }));
    match step {
        Step::Fetch(request) => {
            assert_eq!(request.url, "https://api.github.com/items?page=2")
        }
        other => panic!("expected a request, got {:?}", other),
    }
}

#[test]
fn constraint_violation_ends_the_stream_without_a_request() {
    let github = Github::new("agent", Some(Credentials::Token("t".to_string())));
    let mut stream: PageStream<u8> = PageStream::new(
        github,
        "/app/installations",
        MediaType::Json,
        AuthenticationConstraint::JWT,
    );
    assert_eq!(stream.pull(), Step::Failed(Error::ConstraintViolation));
    assert!(!stream.is_awaiting());
    assert_eq!(stream.pull(), Step::Done);
}

#[test]
fn stream_requests_carry_media_and_credentials() {
    let github = Github::new("agent", Some(Credentials::JWT("j".to_string())));
    let mut stream: PageStream<u8> = PageStream::new(
        github,
        "/app/installations",
        MediaType::Preview("machine-man"),
        AuthenticationConstraint::JWT,
    );
    match stream.pull() {
        Step::Fetch(request) => {
            assert_eq!(request.url, "https://api.github.com/app/installations");
            assert_eq!(
                request.accept,
                "application/vnd.github.machine-man-preview+json"
            );
            assert_eq!(request.authorization, Some("Bearer j".to_string()));
            assert_eq!(request.body, None);
        }
        other => panic!("expected a request, got {:?}", other),
    }
}

/// What a server sends for the two pages of a listing, and nothing else.
fn exchange_for(request: &Request) -> Exchange {
    if request.url == "https://api.github.com/repos/o/r/labels" {
        Exchange::Completed(Response {
            status: 200,
            headers: vec![(
                "link".to_string(),
                "<https://api.github.com/repos/o/r/labels?page=2>; rel=\"next\"".to_string(),
            )],
            body: b"[\"A\",\"B\"]".to_vec(),
        })
    } else if request.url == "https://api.github.com/repos/o/r/labels?page=2" {
        Exchange::Completed(Response {
            status: 200,
            headers: Vec::new(),
            body: b"[\"C\"]".to_vec(),
        })
    } else {
        Exchange::Failed(format!("no route to {}", request.url))
    }
}

#[test]
fn listing_from_exchanges_end_to_end() {
    let mut stream: PageStream<String> = Github::new("agent", None).get_stream("/repos/o/r/labels");
    let mut fetches = 0;
    let mut items = Vec::new();
    let mut step = stream.pull();
    loop {
        match step {
            Step::Item(item) => {
                items.push(item);
                step = stream.pull();
            }
            Step::Fetch(request) => {
                fetches += 1;
                let exchange = exchange_for(&request);
                let decoded = match &exchange {
                    Exchange::Completed(response) => {
                        serde_json::from_slice::<Vec<String>>(&response.body)
                            .map_err(|e| e.to_string())
                    }
                    Exchange::Failed(_) => Err("nothing to decode".to_string()),
                };
                step = stream.deliver(exchange.page(decoded));
            }
            Step::Done => break,
            other => panic!("unexpected step {:?}", other),
        }
    }
    assert_eq!(items, vec!["A".to_string(), "B".to_string(), "C".to_string()]);
    assert_eq!(fetches, 2);
}

#[test]
fn page_of_the_wrong_shape_ends_the_listing() {
    let mut stream: PageStream<String> = Github::new("agent", None).get_stream("/repos/o/r/labels");
    assert!(matches!(stream.pull(), Step::Fetch(_)));
    let exchange = Exchange::Completed(Response {
        status: 200,
        headers: vec![(
            "Link".to_string(),
            "<https://api.github.com/repos/o/r/labels?page=2>; rel=\"next\"".to_string(),
        )],
        body: b"{\"not\": \"a list\"}".to_vec(),
    });
    let step = stream.deliver(exchange.page(Err("expected a sequence".to_string())));
    assert_eq!(
        step,
        Step::Failed(Error::Serialization("expected a sequence".to_string()))
    );
    assert_eq!(stream.pull(), Step::Done);
}
