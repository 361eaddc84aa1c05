//! The cursor extractor: it reads the `Link` header of a page, in which the
//! server names the pages around it.
//!
//! The header is a list of entries separated by commas. An entry is an address
//! in angle brackets followed by parameters, each led by a semicolon:
//! `<https://host/items?page=2>; rel="next"`. The entry's relation is the value
//! of its first `rel` parameter, with or without double quotes. An entry that
//! does not have this form is left out, and the entries around it still count.
//!
//! Every comma ends an entry, also one inside the angle brackets or inside
//! double quotes. An address that holds a comma as it is therefore does not
//! arrive whole: the header is read as cut at that comma, and a piece that
//! is no entry is left out like any other malformed entry. A header whose
//! only `next` address is `<https://host/a,b>` names no page that follows. A
//! server writes the comma in an address as `%2C`. In return no entry, however
//! broken, can take a neighbour with it.
use crate::text::{chars_of, string_of};
use vstd::prelude::*;
use vstd::string::StringExecFns;

verus! {

/// Whether `c` is a space or a tab.
pub open spec fn is_blank(c: char) -> bool {
    c == ' ' || c == '\t'
}

/// Whether `s` holds nothing but spaces and tabs.
pub open spec fn blank(s: Seq<char>) -> bool {
    forall|i: int| 0 <= i < s.len() ==> is_blank(#[trigger] s[i])
}

/// `s` without the spaces and tabs at its start.
pub open spec fn trim_start(s: Seq<char>) -> Seq<char>
    decreases s.len(),
{
    if s.len() > 0 && is_blank(s[0]) {
        trim_start(s.drop_first())
    } else {
        s
    }
}

/// `s` without the spaces and tabs at its end.
pub open spec fn trim_end(s: Seq<char>) -> Seq<char>
    decreases s.len(),
{
    if s.len() > 0 && is_blank(s.last()) {
        trim_end(s.drop_last())
    } else {
        s
    }
}

/// `s` without the spaces and tabs at either end.
pub open spec fn trim(s: Seq<char>) -> Seq<char> {
    trim_end(trim_start(s))
}

/// The index of the first `c` in `s`, or the length of `s` where it holds none.
pub open spec fn position(s: Seq<char>, c: char) -> int
    decreases s.len(),
{
    if s.len() == 0 || s[0] == c {
        0
    } else {
        1 + position(s.drop_first(), c)
    }
}

/// The pieces of `s` between the occurrences of `c`: one more than `s` holds
/// of `c`, in order, some of them empty perhaps.
pub open spec fn split(s: Seq<char>, c: char) -> Seq<Seq<char>>
    decreases s.len(),
{
    let at = position(s, c);
    if at < 0 || at >= s.len() {
        seq![s]
    } else {
        seq![s.take(at)] + split(s.skip(at + 1), c)
    }
}

/// `v` without the double quotes around it, if it has them.
pub open spec fn unquote(v: Seq<char>) -> Seq<char> {
    if v.len() >= 2 && v[0] == '"' && v.last() == '"' {
        v.subrange(1, v.len() - 1)
    } else {
        v
    }
}

/// The relation that the parameter `p` names: the value of `p` where `p` is
/// `rel`, `=` and a value.
pub open spec fn param_rel(p: Seq<char>) -> Option<Seq<char>> {
    let eq = position(p, '=');
    if eq < p.len() && trim(p.take(eq)) == "rel"@ {
        Some(unquote(trim(p.skip(eq + 1))))
    } else {
        None
    }
}

/// The relation that the first `rel` parameter among `params` names.
pub open spec fn rel_of(params: Seq<Seq<char>>) -> Option<Seq<char>>
    decreases params.len(),
{
    if params.len() == 0 {
        None
    } else {
        match param_rel(params[0]) {
            Some(rel) => Some(rel),
            None => rel_of(params.drop_first()),
        }
    }
}

/// One link of a header: a relation and the address that stands in it.
#[derive(Debug, Clone, PartialEq, Eq)]
pub struct Link {
    pub rel: String,
    pub url: String,
}

/// The mathematical value of a [`Link`].
pub struct LinkView {
    pub rel: Seq<char>,
    pub url: Seq<char>,
}

impl View for Link {
    type V = LinkView;

    open spec fn view(&self) -> LinkView {
        LinkView { rel: self.rel@, url: self.url@ }
    }
}

/// The link that the entry `e` holds, if `e` is well formed.
pub open spec fn parse_entry(e: Seq<char>) -> Option<LinkView> {
    let t = trim(e);
    let close = position(t, '>');
    if t.len() == 0 || t[0] != '<' || close >= t.len() {
        None
    } else {
        let params = split(t.skip(close + 1), ';');
        if !blank(params[0]) {
            None
        } else {
            match rel_of(params.drop_first()) {
                Some(rel) => Some(LinkView { rel, url: t.subrange(1, close) }),
                None => None,
            }
        }
    }
}

/// The links of the well-formed entries among `entries`, in order.
pub open spec fn collect(entries: Seq<Seq<char>>) -> Seq<LinkView>
    decreases entries.len(),
{
    if entries.len() == 0 {
        Seq::empty()
    } else {
        (match parse_entry(entries[0]) {
            Some(link) => seq![link],
            None => Seq::empty(),
        }) + collect(entries.drop_first())
    }
}

/// The links of a header.
pub open spec fn parse_links(header: Seq<char>) -> Seq<LinkView> {
    collect(split(header, ','))
}

/// The address of the first link among `links` whose relation is `rel`.
pub open spec fn lookup(links: Seq<LinkView>, rel: Seq<char>) -> Option<Seq<char>>
    decreases links.len(),
{
    if links.len() == 0 {
        None
    } else if links[0].rel == rel {
        Some(links[0].url)
    } else {
        lookup(links.drop_first(), rel)
    }
}

/// The address of the page that follows, as a header names it; none where
/// there is no header or the header has no `next` relation.
pub open spec fn next_url(header: Option<Seq<char>>) -> Option<Seq<char>> {
    match header {
        Some(h) => lookup(parse_links(h), "next"@),
        None => None,
    }
}

/// The values of a vector of links.
pub open spec fn links_of(links: Seq<Link>) -> Seq<LinkView> {
    links.map_values(|l: Link| l@)
}

proof fn lemma_position(s: Seq<char>, c: char)
    ensures
        0 <= position(s, c) <= s.len(),
        position(s, c) < s.len() ==> s[position(s, c)] == c,
        forall|j: int| 0 <= j < position(s, c) ==> s[j] != c,
    decreases s.len(),
{
    if s.len() == 0 || s[0] == c {
    } else {
        let rest = s.drop_first();
        lemma_position(rest, c);
        assert forall|j: int| 0 <= j < position(s, c) implies s[j] != c by {
            if j > 0 {
                assert(s[j] == rest[j - 1]);
            }
        }
    }
}

proof fn lemma_position_is(s: Seq<char>, c: char, k: int)
    requires
        0 <= k <= s.len(),
        k < s.len() ==> s[k] == c,
        forall|j: int| 0 <= j < k ==> s[j] != c,
    ensures
        position(s, c) == k,
    decreases s.len(),
{
    if k == 0 {
    } else {
        let rest = s.drop_first();
        assert forall|j: int| 0 <= j < k - 1 implies rest[j] != c by {
            assert(rest[j] == s[j + 1]);
        }
        lemma_position_is(rest, c, k - 1);
    }
}

proof fn lemma_trim_start_is(s: Seq<char>, k: int)
    requires
        0 <= k <= s.len(),
        k < s.len() ==> !is_blank(s[k]),
        forall|j: int| 0 <= j < k ==> is_blank(s[j]),
    ensures
        trim_start(s) == s.skip(k),
    decreases s.len(),
{
    if k == 0 {
        assert(s.skip(0) =~= s);
    } else {
        let rest = s.drop_first();
        assert forall|j: int| 0 <= j < k - 1 implies is_blank(rest[j]) by {
            assert(rest[j] == s[j + 1]);
        }
        lemma_trim_start_is(rest, k - 1);
        assert(rest.skip(k - 1) =~= s.skip(k));
    }
}

proof fn lemma_trim_end_is(s: Seq<char>, k: int)
    requires
        0 <= k <= s.len(),
        k > 0 ==> !is_blank(s[k - 1]),
        forall|j: int| k <= j < s.len() ==> is_blank(s[j]),
    ensures
        trim_end(s) == s.take(k),
    decreases s.len(),
{
    if k == s.len() {
        assert(s.take(k) =~= s);
    } else {
        let rest = s.drop_last();
        lemma_trim_end_is(rest, k);
        assert(rest.take(k) =~= s.take(k));
    }
}

/// The index of the first `c` in `chars[from..to]`, or `to`.
fn find(chars: &Vec<char>, from: usize, to: usize, c: char) -> (r: usize)
    requires
        from <= to <= chars.len(),
    ensures
        from <= r <= to,
        r - from == position(chars@.subrange(from as int, to as int), c),
{
    let mut i: usize = from;
    while i < to && chars[i] != c
        invariant
            from <= i <= to <= chars.len(),
            forall|j: int| from <= j < i ==> chars@[j] != c,
        decreases to - i,
    {
        i += 1;
    }
    proof {
        lemma_position_is(chars@.subrange(from as int, to as int), c, i - from);
    }
    i
}

/// Where `chars[from..to]` starts once the blanks at its start are left out.
fn skip_blanks(chars: &Vec<char>, from: usize, to: usize) -> (r: usize)
    requires
        from <= to <= chars.len(),
    ensures
        from <= r <= to,
        chars@.subrange(r as int, to as int) == trim_start(chars@.subrange(from as int, to as int)),
        r == to <==> blank(chars@.subrange(from as int, to as int)),
{
    let mut i: usize = from;
    while i < to && (chars[i] == ' ' || chars[i] == '\t')
        invariant
            from <= i <= to <= chars.len(),
            forall|j: int| from <= j < i ==> is_blank(chars@[j]),
        decreases to - i,
    {
        i += 1;
    }
    proof {
        let s = chars@.subrange(from as int, to as int);
        lemma_trim_start_is(s, i - from);
        assert(s.skip(i - from) =~= chars@.subrange(i as int, to as int));
        if i < to {
            assert(!is_blank(s[i - from]));
        }
    }
    i
}

/// Where `chars[from..to]` ends once the blanks at its end are left out.
fn drop_blanks(chars: &Vec<char>, from: usize, to: usize) -> (r: usize)
    requires
        from <= to <= chars.len(),
    ensures
        from <= r <= to,
        chars@.subrange(from as int, r as int) == trim_end(chars@.subrange(from as int, to as int)),
{
    let mut i: usize = to;
    while i > from && (chars[i - 1] == ' ' || chars[i - 1] == '\t')
        invariant
            from <= i <= to <= chars.len(),
            forall|j: int| i <= j < to ==> is_blank(chars@[j]),
        decreases i - from,
    {
        i -= 1;
    }
    proof {
        let s = chars@.subrange(from as int, to as int);
        lemma_trim_end_is(s, i - from);
        assert(s.take(i - from) =~= chars@.subrange(from as int, i as int));
    }
    i
}

/// The bounds of `chars[from..to]` once the blanks at both ends are left out.
fn trim_bounds(chars: &Vec<char>, from: usize, to: usize) -> (r: (usize, usize))
    requires
        from <= to <= chars.len(),
    ensures
        from <= r.0 <= r.1 <= to,
        chars@.subrange(r.0 as int, r.1 as int) == trim(chars@.subrange(from as int, to as int)),
{
    let start = skip_blanks(chars, from, to);
    let end = drop_blanks(chars, start, to);
    (start, end)
}

/// Whether `chars[from..to]` spells `rel`.
fn spells_rel(chars: &Vec<char>, from: usize, to: usize) -> (r: bool)
    requires
        from <= to <= chars.len(),
    ensures
        r == (chars@.subrange(from as int, to as int) == "rel"@),
{
    proof {
        reveal_strlit("rel");
    }
    let ghost s = chars@.subrange(from as int, to as int);
    if to - from == 3 && chars[from] == 'r' && chars[from + 1] == 'e' && chars[from + 2] == 'l' {
        assert(s =~= "rel"@);
        true
    } else {
        proof {
            if s.len() == 3 {
                assert(s[0] == chars@[from as int]);
                assert(s[1] == chars@[from + 1]);
                assert(s[2] == chars@[from + 2]);
            }
        }
        false
    }
}

/// The relation that the parameter `chars[from..to]` names.
fn relation(chars: &Vec<char>, from: usize, to: usize) -> (r: Option<String>)
    requires
        from <= to <= chars.len(),
    ensures
        match r {
            Some(rel) => param_rel(chars@.subrange(from as int, to as int)) == Some(rel@),
            None => param_rel(chars@.subrange(from as int, to as int)) is None,
        },
{
    let ghost p = chars@.subrange(from as int, to as int);
    let eq = find(chars, from, to, '=');
    if eq == to {
        return None;
    }
    let (name_from, name_to) = trim_bounds(chars, from, eq);
    assert(p.take(eq - from) =~= chars@.subrange(from as int, eq as int));
    if !spells_rel(chars, name_from, name_to) {
        return None;
    }
    let (value_from, value_to) = trim_bounds(chars, eq + 1, to);
    assert(p.skip(eq - from + 1) =~= chars@.subrange(eq + 1, to as int));
    let ghost v = chars@.subrange(value_from as int, value_to as int);
    if value_to - value_from >= 2 && chars[value_from] == '"' && chars[value_to - 1] == '"' {
        assert(v.subrange(1, v.len() - 1) =~= chars@.subrange(value_from + 1, value_to - 1));
        Some(string_of(chars, value_from + 1, value_to - 1))
    } else {
        Some(string_of(chars, value_from, value_to))
    }
}

/// The relation that the first `rel` parameter in `chars[from..to]` names,
/// the parameters being separated by semicolons.
fn first_relation(chars: &Vec<char>, from: usize, to: usize) -> (r: Option<String>)
    requires
        from <= to <= chars.len(),
    ensures
        match r {
            Some(rel) => rel_of(split(chars@.subrange(from as int, to as int), ';')) == Some(rel@),
            None => rel_of(split(chars@.subrange(from as int, to as int), ';')) is None,
        },
{
    let ghost goal = rel_of(split(chars@.subrange(from as int, to as int), ';'));
    let mut start: usize = from;
    loop
        invariant
            from <= start <= to <= chars.len(),
            goal == rel_of(split(chars@.subrange(start as int, to as int), ';')),
            goal == rel_of(split(chars@.subrange(from as int, to as int), ';')),
        decreases to - start,
    {
        let ghost s = chars@.subrange(start as int, to as int);
        let end = find(chars, start, to, ';');
        let found = relation(chars, start, end);
        proof {
            let pieces = split(s, ';');
            if end < to {
                assert(s.take(end - start) =~= chars@.subrange(start as int, end as int));
                assert(s.skip(end - start + 1) =~= chars@.subrange(end + 1, to as int));
                assert(pieces.drop_first() =~= split(s.skip(end - start + 1), ';'));
            } else {
                assert(s =~= chars@.subrange(start as int, end as int));
                assert(pieces.drop_first() =~= Seq::<Seq<char>>::empty());
                assert(rel_of(pieces.drop_first()) is None);
            }
            assert(pieces[0] == chars@.subrange(start as int, end as int));
        }
        match found {
            Some(rel) => {
                return Some(rel);
            },
            None => {
                if end == to {
                    return None;
                }
                start = end + 1;
            },
        }
    }
}

/// The link that the entry `chars[from..to]` holds.
fn entry(chars: &Vec<char>, from: usize, to: usize) -> (r: Option<Link>)
    requires
        from <= to <= chars.len(),
    ensures
        match r {
            Some(link) => parse_entry(chars@.subrange(from as int, to as int)) == Some(link@),
            None => parse_entry(chars@.subrange(from as int, to as int)) is None,
        },
{
    let (start, end) = trim_bounds(chars, from, to);
    let ghost t = chars@.subrange(start as int, end as int);
    if start == end || chars[start] != '<' {
        return None;
    }
    let close = find(chars, start, end, '>');
    if close == end {
        return None;
    }
    proof {
        lemma_position(t, '>');
        assert(t[0] == chars@[start as int]);
    }
    let ghost after = t.skip(close - start + 1);
    assert(after =~= chars@.subrange(close + 1, end as int));
    let semi = find(chars, close + 1, end, ';');
    let lead = skip_blanks(chars, close + 1, semi);
    proof {
        let params = split(after, ';');
        if semi < end {
            assert(after.take(semi - close - 1) =~= chars@.subrange(close + 1, semi as int));
            assert(params.drop_first() =~= split(after.skip(semi - close), ';'));
            assert(after.skip(semi - close) =~= chars@.subrange(semi + 1, end as int));
        } else {
            assert(params[0] == after);
            assert(params.drop_first() =~= Seq::<Seq<char>>::empty());
        }
    }
    if lead != semi || semi == end {
        return None;
    }
    match first_relation(chars, semi + 1, end) {
        Some(rel) => {
            assert(t.subrange(1, close - start) =~= chars@.subrange(start + 1, close as int));
            Some(Link { rel, url: string_of(chars, start + 1, close) })
        },
        None => None,
    }
}

/// Reads the links of a header, leaving out the entries that are not well
/// formed.
pub fn parse(header: &str) -> (r: Vec<Link>)
    ensures
        links_of(r@) == parse_links(header@),
{
    let chars = chars_of(header);
    let mut out: Vec<Link> = Vec::new();
    let mut start: usize = 0;
    assert(chars@.subrange(0, chars.len() as int) =~= header@);
    loop
        invariant_except_break
            links_of(out@) + collect(split(chars@.subrange(start as int, chars.len() as int), ','))
                == parse_links(header@),
        invariant
            start <= chars.len(),
            chars@ == header@,
        ensures
            links_of(out@) == parse_links(header@),
        decreases chars.len() - start,
    {
        let ghost s = chars@.subrange(start as int, chars.len() as int);
        let ghost before = links_of(out@);
        let end = find(&chars, start, chars.len(), ',');
        let found = entry(&chars, start, end);
        proof {
            let pieces = split(s, ',');
            if end < chars.len() {
                assert(s.take(end - start) =~= chars@.subrange(start as int, end as int));
                assert(s.skip(end - start + 1) =~= chars@.subrange(end + 1, chars.len() as int));
                assert(pieces.drop_first() =~= split(s.skip(end - start + 1), ','));
            } else {
                assert(s =~= chars@.subrange(start as int, end as int));
                assert(pieces.drop_first() =~= Seq::<Seq<char>>::empty());
            }
        }
        match found {
            Some(link) => {
                out.push(link);
                assert(links_of(out@) =~= before + seq![link@]);
            },
            None => {
                assert(before + Seq::<LinkView>::empty() =~= before);
            },
        }
        assert(links_of(out@) + collect(split(s, ',').drop_first()) =~= parse_links(header@));
        if end == chars.len() {
            assert(links_of(out@) + Seq::<LinkView>::empty() =~= links_of(out@));
            break ;
        }
        start = end + 1;
    }
    out
}

/// Finds the address that stands in the relation `rel` among `links`.
pub fn find_relation(links: &Vec<Link>, rel: &str) -> (r: Option<String>)
    ensures
        match r {
            Some(url) => lookup(links_of(links@), rel@) == Some(url@),
            None => lookup(links_of(links@), rel@) is None,
        },
{
    let wanted = String::from_str(rel);
    let mut i: usize = 0;
    assert(links_of(links@).skip(0) =~= links_of(links@));
    while i < links.len()
        invariant
            i <= links.len(),
            wanted@ == rel@,
            lookup(links_of(links@), rel@) == lookup(links_of(links@).skip(i as int), rel@),
        decreases links.len() - i,
    {
        let ghost rest = links_of(links@).skip(i as int);
        assert(rest[0] == links@[i as int]@);
        if links[i].rel == wanted {
            return Some(links[i].url.clone());
        }
        assert(rest.drop_first() =~= links_of(links@).skip(i + 1));
        i += 1;
    }
    assert(links_of(links@).skip(links.len() as int) =~= Seq::<LinkView>::empty());
    None
}

/// The value of a header that may be absent.
pub open spec fn header_of(header: Option<&str>) -> Option<Seq<char>> {
    match header {
        Some(h) => Some(h@),
        None => None,
    }
}

/// Extracts the address of the page that follows from the `Link` header of a
/// page. That there is none is no error: it says that the listing ends here.
pub fn next_link(header: Option<&str>) -> (r: Option<String>)
    ensures
        match r {
            Some(url) => next_url(header_of(header)) == Some(url@),
            None => next_url(header_of(header)) is None,
        },
{
    match header {
        Some(h) => {
            let links = parse(h);
            find_relation(&links, "next")
        },
        None => None,
    }
}

proof fn lemma_lookup(links: Seq<LinkView>, rel: Seq<char>)
    ensures
        lookup(links, rel) is Some <==> exists|i: int|
            0 <= i < links.len() && (#[trigger] links[i]).rel == rel,
    decreases links.len(),
{
    if links.len() == 0 {
    } else if links[0].rel == rel {
    } else {
        let rest = links.drop_first();
        lemma_lookup(rest, rel);
        if lookup(rest, rel) is Some {
            let i = choose|i: int| 0 <= i < rest.len() && (#[trigger] rest[i]).rel == rel;
            assert(links[i + 1].rel == rel);
        }
        if exists|i: int| 0 <= i < links.len() && (#[trigger] links[i]).rel == rel {
            let i = choose|i: int| 0 <= i < links.len() && (#[trigger] links[i]).rel == rel;
            assert(rest[i - 1].rel == rel);
        }
    }
}

/// A header names a page that follows exactly where one of its links has the
/// relation `next`; a header with other relations only names none.
pub proof fn lemma_next_needs_relation(header: Seq<char>)
    ensures
        next_url(Some(header)) is Some <==> exists|i: int|
            0 <= i < parse_links(header).len() && (#[trigger] parse_links(header)[i]).rel
                == "next"@,
{
    lemma_lookup(parse_links(header), "next"@);
}

proof fn lemma_split_joined(a: Seq<char>, b: Seq<char>, c: char)
    ensures
        split(a + seq![c] + b, c) == split(a, c) + split(b, c),
    decreases a.len(),
{
    let whole = a + seq![c] + b;
    let at = position(a, c);
    lemma_position(a, c);
    assert(whole[a.len() as int] == c);
    if at < a.len() {
        assert(whole[at] == a[at]);
        assert forall|j: int| 0 <= j < at implies whole[j] != c by {
            assert(whole[j] == a[j]);
        }
        lemma_position_is(whole, c, at);
        assert(whole.take(at) =~= a.take(at));
        assert(whole.skip(at + 1) =~= a.skip(at + 1) + seq![c] + b);
        lemma_split_joined(a.skip(at + 1), b, c);
        assert(split(whole, c) =~= split(a, c) + split(b, c));
    } else {
        assert forall|j: int| 0 <= j < a.len() implies whole[j] != c by {
            assert(whole[j] == a[j]);
        }
        lemma_position_is(whole, c, a.len() as int);
        assert(whole.take(a.len() as int) =~= a);
        assert(whole.skip(a.len() as int + 1) =~= b);
        assert(split(whole, c) =~= split(a, c) + split(b, c));
    }
}

proof fn lemma_collect_joined(x: Seq<Seq<char>>, y: Seq<Seq<char>>)
    ensures
        collect(x + y) == collect(x) + collect(y),
    decreases x.len(),
{
    if x.len() == 0 {
        assert(x + y =~= y);
        assert(collect(x) + collect(y) =~= collect(y));
    } else {
        lemma_collect_joined(x.drop_first(), y);
        assert((x + y).drop_first() =~= x.drop_first() + y);
        assert((x + y)[0] == x[0]);
        assert(collect(x + y) =~= collect(x) + collect(y));
    }
}

/// The links of two headers written one after the other with a comma between
/// them are the links of the first followed by the links of the second.
pub proof fn lemma_links_of_joined(first: Seq<char>, second: Seq<char>)
    ensures
        parse_links(first + seq![','] + second) == parse_links(first) + parse_links(second),
{
    lemma_split_joined(first, second, ',');
    lemma_collect_joined(split(first, ','), split(second, ','));
}

/// An entry that is not well formed does not keep the entries around it from
/// being read: the header yields what it would yield without that entry.
pub proof fn lemma_malformed_entry_is_skipped(
    before: Seq<char>,
    entry: Seq<char>,
    after: Seq<char>,
)
    requires
        !entry.contains(','),
        parse_entry(entry) is None,
    ensures
        parse_links(before + seq![','] + entry + seq![','] + after) == parse_links(before)
            + parse_links(after),
        parse_links(before + seq![','] + entry + seq![','] + after) == parse_links(
            before + seq![','] + after,
        ),
{
    lemma_position(entry, ',');
    if position(entry, ',') < entry.len() {
        assert(entry.contains(entry[position(entry, ',')]));
    }
    assert(split(entry, ',') =~= seq![entry]);
    assert(collect(seq![entry].drop_first()) =~= Seq::<LinkView>::empty());
    assert(parse_links(entry) =~= Seq::<LinkView>::empty());
    lemma_links_of_joined(before, entry);
    lemma_links_of_joined(before + seq![','] + entry, after);
    lemma_links_of_joined(before, after);
    assert(parse_links(before) + Seq::<LinkView>::empty() =~= parse_links(before));
}

} // verus!
