use hubcaps::links::{find_relation, next_link, parse, Link};

fn link(rel: &str, url: &str) -> Link {
    Link {
        rel: rel.to_string(),
        url: url.to_string(),
    }
}

#[test]
fn parses_next_and_last() {
    let header = "<https://api.github.com/repos/o/r/issues?page=2>; rel=\"next\", \
                  <https://api.github.com/repos/o/r/issues?page=5>; rel=\"last\"";
    assert_eq!(
        parse(header),
        vec![
            link("next", "https://api.github.com/repos/o/r/issues?page=2"),
            link("last", "https://api.github.com/repos/o/r/issues?page=5"),
        ]
    );
    assert_eq!(
        next_link(Some(header)),
        Some("https://api.github.com/repos/o/r/issues?page=2".to_string())
    );
}

#[test]
fn only_last_gives_no_next() {
    let header = "<https://api.github.com/items?page=9>; rel=\"last\"";
    assert_eq!(
        parse(header),
        vec![link("last", "https://api.github.com/items?page=9")]
    );
    assert_eq!(next_link(Some(header)), None);
}

#[test]
fn absent_header_gives_no_next() {
    assert_eq!(next_link(None), None);
    assert_eq!(next_link(Some("")), None);
    assert_eq!(parse(""), Vec::<Link>::new());
}

#[test]
fn malformed_entry_is_left_out() {
    let header = "<https://h/a?page=1>; rel=\"prev\", this is no entry, \
                  <https://h/a?page=3>; rel=\"next\"";
    assert_eq!(
        parse(header),
        vec![
            link("prev", "https://h/a?page=1"),
            link("next", "https://h/a?page=3"),
        ]
    );
    assert_eq!(next_link(Some(header)), Some("https://h/a?page=3".to_string()));
}

#[test]
fn malformed_entries_of_every_sort() {
    assert_eq!(parse("https://h/a; rel=\"next\""), Vec::<Link>::new());
    assert_eq!(parse("<https://h/a; rel=\"next\""), Vec::<Link>::new());
    assert_eq!(parse("<https://h/a>"), Vec::<Link>::new());
    assert_eq!(parse("<https://h/a>; title=\"x\""), Vec::<Link>::new());
    assert_eq!(parse("<https://h/a> x; rel=\"next\""), Vec::<Link>::new());
    assert_eq!(parse("<https://h/a>; rel"), Vec::<Link>::new());
    assert_eq!(parse(",,"), Vec::<Link>::new());
}

#[test]
fn blanks_and_quotes_are_optional() {
    assert_eq!(
        parse("  <https://h/a>;rel=next  "),
        vec![link("next", "https://h/a")]
    );
    assert_eq!(
        parse("<https://h/a> ;\trel = \"next\" ; title=\"t\""),
        vec![link("next", "https://h/a")]
    );
    assert_eq!(
        parse("<https://h/a>; title=\"t\"; rel=\"first\"; rel=\"next\""),
        vec![link("first", "https://h/a")]
    );
    assert_eq!(parse("<>; rel=\"\""), vec![link("", "")]);
    assert_eq!(parse("<u>; rel=\""), vec![link("\"", "u")]);
}

#[test]
fn first_matching_relation_wins() {
    let links = parse("<https://h/1>; rel=\"next\", <https://h/2>; rel=\"next\"");
    assert_eq!(find_relation(&links, "next"), Some("https://h/1".to_string()));
    assert_eq!(find_relation(&links, "prev"), None);
    assert_eq!(find_relation(&Vec::new(), "next"), None);
}

#[test]
fn addresses_outside_ascii() {
    assert_eq!(
        parse("<https://h/\u{e9}t\u{e9}>; rel=\"next\""),
        vec![link("next", "https://h/\u{e9}t\u{e9}")]
    );
}

#[test]
fn comma_inside_an_address_cuts_the_entry() {
    assert_eq!(parse("<https://h/a,b>; rel=\"next\""), Vec::<Link>::new());
    assert_eq!(next_link(Some("<https://h/a,b>; rel=\"next\"")), None);
    assert_eq!(
        next_link(Some("<https://h/a%2Cb>; rel=\"next\"")),
        Some("https://h/a%2Cb".to_string())
    );
    assert_eq!(
        parse("<https://h/a,b>; rel=\"next\", <https://h/c>; rel=\"last\""),
        vec![link("last", "https://h/c")]
    );
}
