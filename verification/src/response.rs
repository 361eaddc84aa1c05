//! The classifier: it turns the outcome of an exchange into a value or into
//! the one error that the outcome amounts to.
use crate::errors::{account, account_of, ClientError, Error};
use crate::query::{pairs_of, Pairs};
use crate::text::{chars_of, text_of};
use vstd::prelude::*;

verus! {

/// What the server sent back.
#[derive(Debug, Clone, PartialEq, Eq)]
pub struct Response {
    pub status: u16,
    /// The headers, by name and value, in the order in which they came.
    pub headers: Vec<(String, String)>,
    pub body: Vec<u8>,
}

/// The lower-case form of an ASCII capital; any other character itself.
pub open spec fn lower(c: char) -> char {
    if 'A' <= c && c <= 'Z' {
        ((c as u8) + 32) as char
    } else {
        c
    }
}

/// Whether `a` and `b` name the same header: they are the same but for the
/// case of their ASCII letters.
pub open spec fn same_name(a: Seq<char>, b: Seq<char>) -> bool {
    a.len() == b.len() && forall|i: int| 0 <= i < a.len() ==> lower(#[trigger] a[i]) == lower(b[i])
}

/// The value of the first header among `headers` that is named `name`.
pub open spec fn header_value(headers: Pairs, name: Seq<char>) -> Option<Seq<char>>
    decreases headers.len(),
{
    if headers.len() == 0 {
        None
    } else if same_name(headers[0].0, name) {
        Some(headers[0].1)
    } else {
        header_value(headers.drop_first(), name)
    }
}

fn lower_case(c: char) -> (r: char)
    ensures
        r == lower(c),
{
    if 'A' <= c && c <= 'Z' {
        ((c as u8) + 32) as char
    } else {
        c
    }
}

/// Decides whether `a` and `b` name the same header.
fn names_match(a: &Vec<char>, b: &Vec<char>) -> (r: bool)
    ensures
        r == same_name(a@, b@),
{
    if a.len() != b.len() {
        return false;
    }
    let mut i: usize = 0;
    while i < a.len()
        invariant
            i <= a.len(),
            a.len() == b.len(),
            forall|j: int| 0 <= j < i ==> lower(#[trigger] a@[j]) == lower(b@[j]),
        decreases a.len() - i,
    {
        if lower_case(a[i]) != lower_case(b[i]) {
            return false;
        }
        i += 1;
    }
    true
}

impl Response {
    /// The value of the `Link` header, where there is one.
    pub open spec fn link(self) -> Option<Seq<char>> {
        header_value(pairs_of(self.headers@), "link"@)
    }

    /// Finds the value of the first header that is named `name`, whatever
    /// the case of the letters.
    pub fn header(&self, name: &str) -> (r: Option<String>)
        ensures
            text_of(r) == header_value(pairs_of(self.headers@), name@),
    {
        let wanted = chars_of(name);
        let mut i: usize = 0;
        assert(pairs_of(self.headers@).skip(0) =~= pairs_of(self.headers@));
        while i < self.headers.len()
            invariant
                i <= self.headers.len(),
                wanted@ == name@,
                header_value(pairs_of(self.headers@), name@) == header_value(
                    pairs_of(self.headers@).skip(i as int),
                    name@,
                ),
            decreases self.headers.len() - i,
        {
            let ghost rest = pairs_of(self.headers@).skip(i as int);
            assert(rest[0] == (self.headers@[i as int].0@, self.headers@[i as int].1@));
            let found = chars_of(self.headers[i].0.as_str());
            if names_match(&found, &wanted) {
                return Some(self.headers[i].1.clone());
            }
            assert(rest.drop_first() =~= pairs_of(self.headers@).skip(i + 1));
            i += 1;
        }
        assert(pairs_of(self.headers@).skip(self.headers.len() as int) =~= Pairs::empty());
        None
    }
}

/// How an exchange with the server ended.
#[derive(Debug, Clone, PartialEq, Eq)]
pub enum Exchange {
    /// The server was not reached; the text is the transport's account.
    Failed(String),
    /// The server answered.
    Completed(Response),
}

/// One page of a listing: its items in the server's order, and the `Link`
/// header that came with them.
#[derive(Debug, PartialEq, Eq)]
pub struct Page<T> {
    pub items: Vec<T>,
    pub link: Option<String>,
}

/// The mathematical value of a [`Page`].
pub struct PageView<T> {
    pub items: Seq<T>,
    pub link: Option<Seq<char>>,
}

impl<T> View for Page<T> {
    type V = PageView<T>;

    open spec fn view(&self) -> PageView<T> {
        PageView { items: self.items@, link: text_of(self.link) }
    }
}

/// Whether a status reports success.
pub open spec fn is_success(status: u16) -> bool {
    200 <= status < 300
}

/// Decides whether a status reports success.
pub fn succeeded(status: u16) -> (r: bool)
    ensures
        r == is_success(status),
{
    200 <= status && status < 300
}

impl Error {
    /// Whether this is the error that the answer `response` amounts to when
    /// its status is no success: the status, the server's account where the
    /// body holds one, and the body as it came.
    pub open spec fn refuses(self, response: Response) -> bool {
        self matches Error::Status { code, error, body } && code == response.status && body
            == response.body && account_of(error) == account(response.body@)
    }
}

impl Response {
    /// The error that this answer amounts to when its status is no success
    /// and `account` is what its body holds of the server's account.
    pub fn refusal(self, account: Option<ClientError>) -> (r: Error)
        ensures
            r == (Error::Status { code: self.status, error: account, body: self.body }),
    {
        Error::Status { code: self.status, error: account, body: self.body }
    }
}

impl Exchange {
    /// Whether `r` is what this exchange comes to for a call whose body,
    /// read as the value that the call expects, is `decoded`: a transport
    /// failure where the server was not reached; the refusal where the status
    /// is no success, whatever the body may decode to; else the decoded value,
    /// or a serialization error where the body could not be decoded.
    pub open spec fn settles<T>(self, decoded: Result<T, String>, r: Result<T, Error>) -> bool {
        match self {
            Exchange::Failed(text) => r == Err::<T, Error>(Error::Transport(text)),
            Exchange::Completed(response) => if is_success(response.status) {
                r == (match decoded {
                    Ok(value) => Ok(value),
                    Err(text) => Err(Error::Serialization(text)),
                })
            } else {
                r matches Err(error) && error.refuses(response)
            },
        }
    }

    /// Classifies this exchange by itself: the answer where the server has
    /// answered with success, else the one error that the exchange amounts
    /// to. The body of a refusal is read as the server's account; a body of
    /// any other shape is kept as it came, and never makes the classification
    /// fail.
    pub fn classify(self) -> (r: Result<Response, Error>)
        ensures
            match self {
                Exchange::Failed(text) => r == Err::<Response, Error>(Error::Transport(text)),
                Exchange::Completed(response) => if is_success(response.status) {
                    r == Ok::<Response, Error>(response)
                } else {
                    r matches Err(error) && error.refuses(response)
                },
            },
    {
        match self {
            Exchange::Failed(text) => Err(Error::Transport(text)),
            Exchange::Completed(response) => {
                if succeeded(response.status) {
                    Ok(response)
                } else {
                    let account = ClientError::decode(response.body.as_slice());
                    Err(response.refusal(account))
                }
            },
        }
    }

    /// Classifies this exchange for a call that expects a value of `T`.
    /// `decoded` is what the body holds when read as a `T`.
    pub fn entity<T>(self, decoded: Result<T, String>) -> (r: Result<T, Error>)
        ensures
            self.settles(decoded, r),
    {
        match self.classify() {
            Err(error) => Err(error),
            Ok(_) => match decoded {
                Ok(value) => Ok(value),
                Err(text) => Err(Error::Serialization(text)),
            },
        }
    }

    /// Whether `r` is what this exchange comes to for a call that expects a
    /// page of a listing and whose body, read as a list, is `decoded`: as for
    /// a single value, and the page takes its `Link` header from the answer.
    pub open spec fn settles_page<T>(
        self,
        decoded: Result<Vec<T>, String>,
        r: Result<Page<T>, Error>,
    ) -> bool {
        match self {
            Exchange::Failed(text) => r == Err::<Page<T>, Error>(Error::Transport(text)),
            Exchange::Completed(response) => if is_success(response.status) {
                match decoded {
                    Ok(items) => r matches Ok(page) && page.items == items && text_of(page.link)
                        == response.link(),
                    Err(text) => r == Err::<Page<T>, Error>(Error::Serialization(text)),
                }
            } else {
                r matches Err(error) && error.refuses(response)
            },
        }
    }

    /// Classifies this exchange for a call that expects a page of a listing.
    /// `decoded` is what the body holds when read as a list of `T`.
    pub fn page<T>(self, decoded: Result<Vec<T>, String>) -> (r: Result<Page<T>, Error>)
        ensures
            self.settles_page(decoded, r),
    {
        match self.classify() {
            Err(error) => Err(error),
            Ok(response) => match decoded {
                Ok(items) => Ok(Page { items, link: response.header("link") }),
                Err(text) => Err(Error::Serialization(text)),
            },
        }
    }

    /// Classifies this exchange for a call that expects no value: where the
    /// status reports success the body is not looked at.
    pub fn unit(self) -> (r: Result<(), Error>)
        ensures
            self.settles(Ok(()), r),
    {
        match self.classify() {
            Err(error) => Err(error),
            Ok(_) => Ok(()),
        }
    }
}

} // verus!
