//! The page stream: a listing that the server hands out page by page, read as
//! one sequence of items.
//!
//! A stream never talks to the server itself. When it needs a page it hands
//! out the request for it; whoever drives the stream sends the request and
//! delivers the outcome. Nothing is asked for before an item is wanted, at most
//! one request is out at any time, and after a failure nothing is asked for
//! again: every later pull reports the end of the sequence.
use crate::credentials::AuthenticationConstraint;
use crate::errors::Error;
use crate::github::{Github, GithubView, Method, Request, RequestView};
use crate::links::{next_link, next_url};
use crate::media::MediaType;
use crate::response::{Page, PageView};
use vstd::prelude::*;

verus! {

/// What a pull on a stream comes to.
#[derive(Debug, PartialEq, Eq)]
pub enum Step<T> {
    /// The next item of the sequence.
    Item(T),
    /// The request for the page that the stream needs next. Its outcome is
    /// owed to [`PageStream::deliver`].
    Fetch(Request),
    /// A request is out and its outcome was not delivered yet.
    Pending,
    /// The sequence has ended.
    Done,
    /// The sequence has ended with this error.
    Failed(Error),
}

/// The mathematical value of a [`Step`].
pub enum StepView<T> {
    Item(T),
    Fetch(RequestView),
    Pending,
    Done,
    Failed(Error),
}

impl<T> View for Step<T> {
    type V = StepView<T>;

    open spec fn view(&self) -> StepView<T> {
        match self {
            Step::Item(item) => StepView::Item(*item),
            Step::Fetch(request) => StepView::Fetch(request@),
            Step::Pending => StepView::Pending,
            Step::Done => StepView::Done,
            Step::Failed(error) => StepView::Failed(*error),
        }
    }
}

/// The value of an outcome that is delivered to a stream.
pub open spec fn outcome_of<T>(outcome: Result<Page<T>, Error>) -> Result<PageView<T>, Error> {
    match outcome {
        Ok(page) => Ok(page@),
        Err(error) => Err(error),
    }
}

/// The mathematical value of a [`PageStream`].
pub struct StreamView<T> {
    pub github: GithubView,
    pub media: MediaType,
    pub authentication: AuthenticationConstraint,
    /// The items of the page at hand that were not handed out yet.
    pub buffered: Seq<T>,
    /// The address of the page that follows the page at hand.
    pub next: Option<Seq<char>>,
    /// Whether a request is out whose outcome was not delivered yet.
    pub awaiting: bool,
}

impl<T> StreamView<T> {
    /// A stream over the listing at `path` on the host of `github`, in the
    /// stable representation and under no constraint, before its first pull.
    pub open spec fn fresh(github: GithubView, path: Seq<char>) -> StreamView<T> {
        StreamView {
            github,
            media: MediaType::Json,
            authentication: AuthenticationConstraint::Unconstrained,
            buffered: Seq::empty(),
            next: Some(github.host + path),
            awaiting: false,
        }
    }

    /// Whether the client's credential meets the stream's constraint.
    pub open spec fn permitted(self) -> bool {
        self.authentication.permits(self.github.credentials)
    }

    /// The stream after a pull.
    pub open spec fn pulled(self) -> StreamView<T> {
        if self.awaiting {
            self
        } else if self.buffered.len() > 0 {
            StreamView { buffered: self.buffered.drop_first(), ..self }
        } else if self.next is Some {
            StreamView { next: None, awaiting: self.permitted(), ..self }
        } else {
            self
        }
    }

    /// What a pull comes to: nothing while a request is out; else the first
    /// buffered item; else the request for the page that follows, or the
    /// constraint's violation where the credential does not meet it; else the
    /// end.
    pub open spec fn step(self) -> StepView<T> {
        if self.awaiting {
            StepView::Pending
        } else if self.buffered.len() > 0 {
            StepView::Item(self.buffered[0])
        } else if self.next is Some {
            if self.permitted() {
                StepView::Fetch(
                    self.github.prepare(Method::Get, self.next->0, None, self.media),
                )
            } else {
                StepView::Failed(Error::ConstraintViolation)
            }
        } else {
            StepView::Done
        }
    }

    /// The stream once `page` has taken the place of the page at hand.
    pub open spec fn stored(self, page: PageView<T>) -> StreamView<T> {
        StreamView { buffered: page.items, next: next_url(page.link), awaiting: false, ..self }
    }

    /// The stream once it has given up.
    pub open spec fn ended(self) -> StreamView<T> {
        StreamView { buffered: Seq::empty(), next: None, awaiting: false, ..self }
    }

    /// The stream after the delivery of `outcome`. Where no request is out,
    /// the outcome is dropped and the stream is pulled. An error ends the
    /// stream. A page is stored, and the stream is pulled.
    pub open spec fn delivered(self, outcome: Result<PageView<T>, Error>) -> StreamView<T> {
        if !self.awaiting {
            self.pulled()
        } else {
            match outcome {
                Ok(page) => self.stored(page).pulled(),
                Err(_) => self.ended(),
            }
        }
    }

    /// What the delivery of `outcome` comes to: the error, where a request
    /// is out and has failed; else what the pull comes to that the delivery
    /// ends with.
    pub open spec fn answer(self, outcome: Result<PageView<T>, Error>) -> StepView<T> {
        if !self.awaiting {
            self.step()
        } else {
            match outcome {
                Ok(page) => self.stored(page).step(),
                Err(error) => StepView::Failed(error),
            }
        }
    }
}

/// A lazy sequence of the items of a listing. It is read once, from the
/// start; to read the listing again, make a new stream.
pub struct PageStream<T> {
    github: Github,
    media: MediaType,
    authentication: AuthenticationConstraint,
    /// The items of the page at hand that were not handed out yet, the next
    /// one last.
    items: Vec<T>,
    next: Option<String>,
    awaiting: bool,
}

impl<T> View for PageStream<T> {
    type V = StreamView<T>;

    closed spec fn view(&self) -> StreamView<T> {
        StreamView {
            github: self.github@,
            media: self.media,
            authentication: self.authentication,
            buffered: self.items@.reverse(),
            next: match self.next {
                Some(url) => Some(url@),
                None => None,
            },
            awaiting: self.awaiting,
        }
    }
}

/// The elements of `items` in the opposite order.
fn reversed<T>(items: Vec<T>) -> (r: Vec<T>)
    ensures
        r@ == items@.reverse(),
{
    let mut rest = items;
    let mut out: Vec<T> = Vec::new();
    while rest.len() > 0
        invariant
            rest@.len() + out@.len() == items@.len(),
            forall|i: int| 0 <= i < rest@.len() ==> rest@[i] == items@[i],
            forall|i: int| 0 <= i < out@.len() ==> out@[i] == items@[items@.len() - 1 - i],
        decreases rest.len(),
    {
        match rest.pop() {
            Some(item) => {
                out.push(item);
            },
            None => {},
        }
    }
    assert(out@ =~= items@.reverse());
    out
}

impl<T> PageStream<T> {
    /// A stream over the listing at `path` on the client's host. Making it
    /// asks nothing of the server.
    pub fn new(
        github: Github,
        path: &str,
        media: MediaType,
        authentication: AuthenticationConstraint,
    ) -> (r: PageStream<T>)
        ensures
            r@ == (StreamView::<T> {
                github: github@,
                media,
                authentication,
                buffered: Seq::empty(),
                next: Some(github@.host + path@),
                awaiting: false,
            }),
    {
        let first = github.url(path);
        let items: Vec<T> = Vec::new();
        assert(items@.reverse() =~= Seq::<T>::empty());
        PageStream { github, media, authentication, items, next: Some(first), awaiting: false }
    }

    /// Whether a request is out whose outcome was not delivered yet.
    pub fn is_awaiting(&self) -> (r: bool)
        ensures
            r == self@.awaiting,
    {
        self.awaiting
    }

    /// Asks for the next item. The answer is the item, if the page at hand
    /// still has one; else the request for the page that follows, whose outcome
    /// is owed to [`PageStream::deliver`]; else the end of the sequence.
    pub fn pull(&mut self) -> (r: Step<T>)
        ensures
            r@ == old(self)@.step(),
            final(self)@ == old(self)@.pulled(),
    {
        if self.awaiting {
            return Step::Pending;
        }
        let ghost before = self.items@;
        match self.items.pop() {
            Some(item) => {
                assert(self.items@.reverse() =~= before.reverse().drop_first());
                return Step::Item(item);
            },
            None => {
                assert(before.reverse() =~= Seq::<T>::empty());
            },
        }
        match self.next.take() {
            None => Step::Done,
            Some(url) => {
                match self.github.request(
                    Method::Get,
                    url.as_str(),
                    None,
                    self.media,
                    self.authentication,
                ) {
                    Ok(request) => {
                        self.awaiting = true;
                        Step::Fetch(request)
                    },
                    Err(error) => Step::Failed(error),
                }
            },
        }
    }

    /// Takes the outcome of the request that the last pull handed out, and
    /// pulls again. A page takes the place of the page at hand, and its `Link`
    /// header says where the next one is. An error ends the sequence and is
    /// passed on. An outcome that no request is out for is dropped.
    pub fn deliver(&mut self, outcome: Result<Page<T>, Error>) -> (r: Step<T>)
        ensures
            r@ == old(self)@.answer(outcome_of(outcome)),
            final(self)@ == old(self)@.delivered(outcome_of(outcome)),
    {
        if !self.awaiting {
            return self.pull();
        }
        self.awaiting = false;
        match outcome {
            Err(error) => {
                self.items = Vec::new();
                self.next = None;
                assert(self.items@.reverse() =~= Seq::<T>::empty());
                Step::Failed(error)
            },
            Ok(page) => {
                let Page { items, link } = page;
                self.next = match &link {
                    Some(l) => next_link(Some(l.as_str())),
                    None => next_link(None),
                };
                self.items = reversed(items);
                assert(self.items@.reverse() =~= items@);
                self.pull()
            },
        }
    }
}

/// What a reader has seen of a stream: the items it was handed, and the
/// requests it was asked to send, each in order.
pub struct Run<T> {
    pub items: Seq<T>,
    pub requests: Seq<RequestView>,
}

/// What a reader sees who pulls the stream `s` until it ends, and who gets
/// the pages `pages`, one after the other, for the requests it sends. Where
/// the pages run out before the requests do, the run stops at the request
/// that stays unanswered.
pub open spec fn drained<T>(s: StreamView<T>, pages: Seq<PageView<T>>) -> Run<T>
    decreases pages.len(), s.buffered.len(),
{
    match s.step() {
        StepView::Item(item) => {
            let rest = drained(s.pulled(), pages);
            Run { items: seq![item] + rest.items, requests: rest.requests }
        },
        StepView::Fetch(request) => if pages.len() == 0 {
            Run { items: Seq::empty(), requests: seq![request] }
        } else {
            let rest = drained(s.pulled().stored(pages[0]), pages.drop_first());
            Run { items: rest.items, requests: seq![request] + rest.requests }
        },
        _ => Run { items: Seq::empty(), requests: Seq::empty() },
    }
}

/// What a reader sees who pulls the stream `s` until it has `wanted` items
/// or the stream ends, and then leaves the stream alone.
pub open spec fn taken<T>(s: StreamView<T>, pages: Seq<PageView<T>>, wanted: nat) -> Run<T>
    decreases wanted, pages.len(),
{
    if wanted == 0 {
        Run { items: Seq::empty(), requests: Seq::empty() }
    } else {
        match s.step() {
            StepView::Item(item) => {
                let rest = taken(s.pulled(), pages, (wanted - 1) as nat);
                Run { items: seq![item] + rest.items, requests: rest.requests }
            },
            StepView::Fetch(request) => if pages.len() == 0 {
                Run { items: Seq::empty(), requests: seq![request] }
            } else {
                let rest = taken(s.pulled().stored(pages[0]), pages.drop_first(), wanted);
                Run { items: rest.items, requests: seq![request] + rest.requests }
            },
            _ => Run { items: Seq::empty(), requests: Seq::empty() },
        }
    }
}

/// Whether every page but the last names a page that follows, and the last
/// names none.
pub open spec fn chained<T>(pages: Seq<PageView<T>>) -> bool {
    forall|i: int|
        0 <= i < pages.len() ==> (next_url((#[trigger] pages[i]).link) is Some <==> i + 1
            < pages.len())
}

/// The items of `pages`, page after page.
pub open spec fn all_items<T>(pages: Seq<PageView<T>>) -> Seq<T>
    decreases pages.len(),
{
    if pages.len() == 0 {
        Seq::empty()
    } else {
        pages[0].items + all_items(pages.drop_first())
    }
}

/// The addresses that the pages of a listing are found at: `first`, and
/// then what each page but the last names as the one that follows.
pub open spec fn addresses<T>(first: Seq<char>, pages: Seq<PageView<T>>) -> Seq<Seq<char>>
    decreases pages.len(),
{
    if pages.len() == 0 {
        Seq::empty()
    } else {
        seq![first] + addresses(next_url(pages[0].link)->0, pages.drop_first())
    }
}

proof fn lemma_drained<T>(s: StreamView<T>, pages: Seq<PageView<T>>)
    requires
        s.permitted(),
        !s.awaiting,
        chained(pages),
        s.next is Some <==> pages.len() > 0,
    ensures
        drained(s, pages).items == s.buffered + all_items(pages),
        drained(s, pages).requests == addresses(s.next->0, pages).map_values(
            |url: Seq<char>| s.github.prepare(Method::Get, url, None, s.media),
        ),
    decreases pages.len(), s.buffered.len(),
{
    let ask = |url: Seq<char>| s.github.prepare(Method::Get, url, None, s.media);
    if s.buffered.len() > 0 {
        lemma_drained(s.pulled(), pages);
        assert(seq![s.buffered[0]] + (s.buffered.drop_first() + all_items(pages)) =~= s.buffered
            + all_items(pages));
    } else if pages.len() > 0 {
        let after = s.pulled().stored(pages[0]);
        let rest = pages.drop_first();
        assert forall|i: int| 0 <= i < rest.len() implies (next_url((#[trigger] rest[i]).link)
            is Some <==> i + 1 < rest.len()) by {
            assert(rest[i] == pages[i + 1]);
        }
        assert(next_url(pages[0].link) is Some <==> rest.len() > 0);
        lemma_drained(after, rest);
        assert(drained(s, pages).items =~= s.buffered + all_items(pages));
        assert(drained(s, pages).requests =~= addresses(s.next->0, pages).map_values(ask));
    } else {
        assert(drained(s, pages).items =~= s.buffered + all_items(pages));
        assert(drained(s, pages).requests =~= addresses(s.next->0, pages).map_values(ask));
    }
}

/// A reader who pulls a fresh stream to its end gets the items of every
/// page, in the order of the pages and, within a page, in the order of the
/// page. It sends one request for each page and no other: the first to the
/// stream's own address, each later one to the address that the page before
/// names.
pub proof fn lemma_drain_reads_every_page<T>(s: StreamView<T>, pages: Seq<PageView<T>>)
    requires
        s.permitted(),
        !s.awaiting,
        s.buffered.len() == 0,
        s.next is Some,
        pages.len() > 0,
        chained(pages),
    ensures
        drained(s, pages).items == all_items(pages),
        drained(s, pages).requests.len() == pages.len(),
        drained(s, pages).requests == addresses(s.next->0, pages).map_values(
            |url: Seq<char>| s.github.prepare(Method::Get, url, None, s.media),
        ),
{
    lemma_drained(s, pages);
    lemma_addresses_len(s.next->0, pages);
    assert(s.buffered + all_items(pages) =~= all_items(pages));
}

/// A listing whose first page names no page that follows is that page and
/// no more: the reader gets the items of the page for one request, and the
/// stream that has handed them out is at its end.
pub proof fn lemma_single_page_is_whole_listing<T>(s: StreamView<T>, page: PageView<T>)
    requires
        s.permitted(),
        !s.awaiting,
        s.buffered.len() == 0,
        s.next is Some,
        next_url(page.link) is None,
    ensures
        drained(s, seq![page]).items == page.items,
        drained(s, seq![page]).requests.len() == 1,
        s.pulled().stored(page).next is None,
        (StreamView { buffered: Seq::empty(), ..s.pulled().stored(page) }).step()
            == StepView::<T>::Done,
{
    let pages = seq![page];
    assert(chained(pages));
    lemma_drain_reads_every_page(s, pages);
    assert(pages.drop_first() =~= Seq::<PageView<T>>::empty());
    assert(all_items(pages.drop_first()) =~= Seq::<T>::empty());
    assert(all_items(pages) =~= pages[0].items + all_items(pages.drop_first()));
    assert(all_items(pages) =~= page.items);
}

proof fn lemma_addresses_len<T>(first: Seq<char>, pages: Seq<PageView<T>>)
    ensures
        addresses(first, pages).len() == pages.len(),
    decreases pages.len(),
{
    if pages.len() > 0 {
        lemma_addresses_len(next_url(pages[0].link)->0, pages.drop_first());
    }
}

proof fn lemma_taken_from_last_page<T>(s: StreamView<T>, pages: Seq<PageView<T>>, wanted: nat)
    requires
        !s.awaiting,
        s.next is None,
    ensures
        taken(s, pages, wanted).requests.len() == 0,
    decreases wanted,
{
    if wanted > 0 && s.buffered.len() > 0 {
        lemma_taken_from_last_page(s.pulled(), pages, (wanted - 1) as nat);
    }
}

proof fn lemma_taken<T>(s: StreamView<T>, pages: Seq<PageView<T>>, wanted: nat, size: nat)
    requires
        s.permitted(),
        !s.awaiting,
        chained(pages),
        s.next is Some <==> pages.len() > 0,
        size >= 1,
        forall|i: int| 0 <= i < pages.len() - 1 ==> (#[trigger] pages[i]).items.len() >= size,
    ensures
        wanted <= s.buffered.len() ==> taken(s, pages, wanted).requests.len() == 0,
        wanted > s.buffered.len() ==> taken(s, pages, wanted).requests.len() * size <= wanted
            - s.buffered.len() + size - 1,
    decreases wanted, pages.len(),
{
    if wanted == 0 {
    } else if s.buffered.len() > 0 {
        lemma_taken(s.pulled(), pages, (wanted - 1) as nat, size);
    } else if pages.len() > 0 {
        let after = s.pulled().stored(pages[0]);
        let rest = pages.drop_first();
        assert forall|i: int| 0 <= i < rest.len() implies (next_url((#[trigger] rest[i]).link)
            is Some <==> i + 1 < rest.len()) by {
            assert(rest[i] == pages[i + 1]);
        }
        assert forall|i: int| 0 <= i < rest.len() - 1 implies (#[trigger] rest[i]).items.len()
            >= size by {
            assert(rest[i] == pages[i + 1]);
        }
        assert(next_url(pages[0].link) is Some <==> rest.len() > 0);
        let more = taken(after, rest, wanted).requests.len();
        assert(taken(s, pages, wanted).requests.len() == 1 + more);
        if rest.len() == 0 {
            lemma_taken_from_last_page(after, rest, wanted);
            assert(1 * size <= wanted + size - 1) by (nonlinear_arith)
                requires
                    wanted >= 1,
            ;
        } else {
            lemma_taken(after, rest, wanted, size);
            let held = pages[0].items.len();
            assert(held >= size);
            if wanted <= held {
                assert((1 + more) * size <= wanted + size - 1) by (nonlinear_arith)
                    requires
                        more == 0,
                        wanted >= 1,
                ;
            } else {
                assert((1 + more) * size <= wanted + size - 1) by (nonlinear_arith)
                    requires
                        more * size <= wanted - held + size - 1,
                        held >= size,
                ;
            }
        }
    } else {
    }
}

/// The least number of pages of `size` items that hold `wanted` items.
pub open spec fn pages_for(wanted: nat, size: nat) -> nat {
    ((wanted + size - 1) / size as int) as nat
}

/// A reader who stops after `wanted` items has sent no more requests than
/// pages of `size` items are needed to hold that many, provided that every
/// page but the last holds `size` items at least. A reader who wants nothing
/// sends nothing: making a stream asks nothing of the server.
pub proof fn lemma_take_fetches_no_more_than_needed<T>(
    s: StreamView<T>,
    pages: Seq<PageView<T>>,
    wanted: nat,
    size: nat,
)
    requires
        s.permitted(),
        !s.awaiting,
        s.buffered.len() == 0,
        s.next is Some,
        pages.len() > 0,
        chained(pages),
        size >= 1,
        forall|i: int| 0 <= i < pages.len() - 1 ==> (#[trigger] pages[i]).items.len() >= size,
    ensures
        taken(s, pages, wanted).requests.len() <= pages_for(wanted, size),
        wanted == 0 ==> taken(s, pages, wanted).requests.len() == 0,
{
    lemma_taken(s, pages, wanted, size);
    let sent = taken(s, pages, wanted).requests.len();
    if wanted > 0 {
        assert(sent <= (wanted + size - 1) / size as int) by (nonlinear_arith)
            requires
                sent * size <= wanted + size - 1,
                size >= 1,
        ;
    } else {
        assert((wanted + size - 1) / size as int >= 0) by (nonlinear_arith)
            requires
                wanted == 0,
                size >= 1,
        ;
    }
}

proof fn lemma_taken_items<T>(s: StreamView<T>, pages: Seq<PageView<T>>, wanted: nat)
    requires
        s.permitted(),
        !s.awaiting,
        chained(pages),
        s.next is Some <==> pages.len() > 0,
    ensures
        taken(s, pages, wanted).items == if wanted <= (s.buffered + all_items(pages)).len() {
            (s.buffered + all_items(pages)).take(wanted as int)
        } else {
            s.buffered + all_items(pages)
        },
    decreases wanted, pages.len(),
{
    let all = s.buffered + all_items(pages);
    let got = taken(s, pages, wanted).items;
    if wanted == 0 {
        assert(got =~= all.take(0));
    } else if s.buffered.len() > 0 {
        lemma_taken_items(s.pulled(), pages, (wanted - 1) as nat);
        assert(s.buffered.drop_first() + all_items(pages) =~= all.drop_first());
        if wanted <= all.len() {
            assert(got =~= all.take(wanted as int));
        } else {
            assert(got =~= all);
        }
    } else if pages.len() > 0 {
        let after = s.pulled().stored(pages[0]);
        let rest = pages.drop_first();
        assert forall|i: int| 0 <= i < rest.len() implies (next_url((#[trigger] rest[i]).link)
            is Some <==> i + 1 < rest.len()) by {
            assert(rest[i] == pages[i + 1]);
        }
        assert(next_url(pages[0].link) is Some <==> rest.len() > 0);
        lemma_taken_items(after, rest, wanted);
        assert(after.buffered + all_items(rest) =~= all);
    } else {
        assert(all =~= Seq::<T>::empty());
    }
}

/// A reader who stops after `wanted` items has got the first `wanted` items
/// of the listing, or all of them where the listing has fewer.
pub proof fn lemma_take_yields_first_items<T>(
    s: StreamView<T>,
    pages: Seq<PageView<T>>,
    wanted: nat,
)
    requires
        s.permitted(),
        !s.awaiting,
        s.buffered.len() == 0,
        s.next is Some,
        pages.len() > 0,
        chained(pages),
    ensures
        taken(s, pages, wanted).items == if wanted <= all_items(pages).len() {
            all_items(pages).take(wanted as int)
        } else {
            all_items(pages)
        },
{
    lemma_taken_items(s, pages, wanted);
    assert(s.buffered + all_items(pages) =~= all_items(pages));
}

/// A stream that has failed stays at its end: the delivery of an error
/// passes the error on once, and every pull after that reports the end and
/// asks for nothing.
pub proof fn lemma_failure_ends_stream<T>(s: StreamView<T>, error: Error)
    requires
        s.awaiting,
    ensures
        s.answer(Err(error)) == StepView::<T>::Failed(error),
        s.delivered(Err(error)).step() == StepView::<T>::Done,
        s.delivered(Err(error)).pulled() == s.delivered(Err(error)),
{
}

/// A stream with nothing buffered and no page to follow is at its end for
/// good: every pull reports the end and changes nothing.
pub proof fn lemma_end_is_final<T>(s: StreamView<T>)
    requires
        !s.awaiting,
        s.buffered.len() == 0,
        s.next is None,
    ensures
        s.step() == StepView::<T>::Done,
        s.pulled() == s,
{
}

/// An item is handed out once: the pull that hands it out takes it off the
/// buffer, leaves the rest in order, and asks nothing of the server.
pub proof fn lemma_item_is_consumed<T>(s: StreamView<T>)
    requires
        !s.awaiting,
        s.buffered.len() > 0,
    ensures
        s.step() == StepView::<T>::Item(s.buffered[0]),
        s.pulled().buffered == s.buffered.drop_first(),
        s.pulled().next == s.next,
        !s.pulled().awaiting,
{
}

/// While a request is out a stream hands out no second one: a pull reports
/// that it is waiting and changes nothing.
pub proof fn lemma_one_request_at_a_time<T>(s: StreamView<T>)
    requires
        s.step() is Fetch,
    ensures
        s.pulled().awaiting,
        s.pulled().step() == StepView::<T>::Pending,
        s.pulled().pulled() == s.pulled(),
{
}

} // verus!
