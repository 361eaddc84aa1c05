//! The dispatcher: it turns a call into the request that goes on the wire.
use crate::credentials::{held, AuthenticationConstraint, Credentials, CredentialsView};
use crate::errors::Error;
use crate::media::MediaType;
use crate::query::{form_urlencode, form_urlencoded, pairs_of};
use crate::stream::{PageStream, StreamView};
use crate::text::{bytes_of, has_char, text_of};
use vstd::prelude::*;
use vstd::string::StringExecFns;

verus! {

/// The host that a client talks to unless it is told otherwise.
pub const DEFAULT_HOST: &'static str = "https://api.github.com";

/// The method of a request.
#[derive(Clone, Copy, Debug, PartialEq, Eq, Structural)]
pub enum Method {
    Get,
    Post,
    Put,
    Patch,
    Delete,
}

impl Method {
    /// The word that stands for this method on the wire.
    pub open spec fn name(self) -> Seq<char> {
        match self {
            Method::Get => "GET"@,
            Method::Post => "POST"@,
            Method::Put => "PUT"@,
            Method::Patch => "PATCH"@,
            Method::Delete => "DELETE"@,
        }
    }

    /// The word that stands for this method on the wire.
    pub fn as_str(&self) -> (r: &'static str)
        ensures
            r@ == self.name(),
    {
        match self {
            Method::Get => "GET",
            Method::Post => "POST",
            Method::Put => "PUT",
            Method::Patch => "PATCH",
            Method::Delete => "DELETE",
        }
    }
}

/// A request as it goes on the wire. It is made for one call and sent once.
#[derive(Debug, PartialEq, Eq)]
pub struct Request {
    pub method: Method,
    /// The absolute address, with whatever the credential adds to it.
    pub url: String,
    /// The value of the `Accept` header.
    pub accept: String,
    /// The value of the `User-Agent` header.
    pub user_agent: String,
    /// The value of the `Authorization` header, where the credential calls
    /// for one.
    pub authorization: Option<String>,
    /// The body, already serialized.
    pub body: Option<Vec<u8>>,
}

/// The mathematical value of a [`Request`].
pub struct RequestView {
    pub method: Method,
    pub url: Seq<char>,
    pub accept: Seq<char>,
    pub user_agent: Seq<char>,
    pub authorization: Option<Seq<char>>,
    pub body: Option<Seq<u8>>,
}

impl View for Request {
    type V = RequestView;

    open spec fn view(&self) -> RequestView {
        RequestView {
            method: self.method,
            url: self.url@,
            accept: self.accept@,
            user_agent: self.user_agent@,
            authorization: text_of(self.authorization),
            body: bytes_of(self.body),
        }
    }
}

impl RequestView {
    /// The headers of the request, by name and value: the agent, what is
    /// accepted, and the authorization where there is one.
    pub open spec fn headers(self) -> Seq<(Seq<char>, Seq<char>)> {
        let always = seq![("User-Agent"@, self.user_agent), ("Accept"@, self.accept)];
        match self.authorization {
            Some(value) => always.push(("Authorization"@, value)),
            None => always,
        }
    }
}

impl Request {
    /// The headers to send with this request, by name and value.
    pub fn headers(&self) -> (r: Vec<(String, String)>)
        ensures
            pairs_of(r@) == self@.headers(),
    {
        let mut out: Vec<(String, String)> = Vec::new();
        out.push((String::from_str("User-Agent"), self.user_agent.clone()));
        out.push((String::from_str("Accept"), self.accept.clone()));
        match &self.authorization {
            Some(value) => {
                out.push((String::from_str("Authorization"), value.clone()));
                assert(pairs_of(out@) =~= self@.headers());
            },
            None => {
                assert(pairs_of(out@) =~= self@.headers());
            },
        }
        out
    }
}

/// The `Authorization` header that a credential calls for: `token` and the
/// token for a personal token, `Bearer` and the token for an application's,
/// none otherwise.
pub open spec fn authorization(credentials: Option<CredentialsView>) -> Option<Seq<char>> {
    match credentials {
        Some(CredentialsView::Token(token)) => Some("token "@ + token),
        Some(CredentialsView::JWT(token)) => Some("Bearer "@ + token),
        _ => None,
    }
}

/// The address that a request for `url` goes to. An OAuth application's id
/// and secret travel in the query, after `?`, or after `&` where `url` has a
/// query already; no other credential changes the address.
pub open spec fn target(url: Seq<char>, credentials: Option<CredentialsView>) -> Seq<char> {
    match credentials {
        Some(CredentialsView::Client(id, secret)) => url + (if url.contains('?') {
            "&"@
        } else {
            "?"@
        }) + form_urlencoded(seq![("client_id"@, id), ("client_secret"@, secret)]),
        _ => url,
    }
}

/// A client: where it sends its requests, under what name, and with which
/// credential. It is never changed after it is made; resources hold copies.
#[derive(Debug, PartialEq, Eq)]
pub struct Github {
    host: String,
    agent: String,
    credentials: Option<Credentials>,
}

/// The mathematical value of a [`Github`].
pub struct GithubView {
    pub host: Seq<char>,
    pub agent: Seq<char>,
    pub credentials: Option<CredentialsView>,
}

impl GithubView {
    /// The request that this client sends for a call to the absolute
    /// address `url`.
    pub open spec fn prepare(
        self,
        method: Method,
        url: Seq<char>,
        body: Option<Seq<u8>>,
        media: MediaType,
    ) -> RequestView {
        RequestView {
            method,
            url: target(url, self.credentials),
            accept: media.accept(),
            user_agent: self.agent,
            authorization: authorization(self.credentials),
            body,
        }
    }

    /// The request that this client sends for a call to `path` on its host.
    pub open spec fn call(
        self,
        method: Method,
        path: Seq<char>,
        body: Option<Seq<u8>>,
        media: MediaType,
    ) -> RequestView {
        self.prepare(method, self.host + path, body, media)
    }

    /// Whether `r` is what a call to `path` comes to whose body was encoded
    /// beforehand: the failure of the encoding, if it has failed; else the
    /// constraint's violation, if the credential does not meet
    /// `authentication`; else the request with the encoded body.
    pub open spec fn sends(
        self,
        method: Method,
        path: Seq<char>,
        encoded: Result<Vec<u8>, String>,
        media: MediaType,
        authentication: AuthenticationConstraint,
        r: Result<Request, Error>,
    ) -> bool {
        match encoded {
            Ok(message) => if authentication.permits(self.credentials) {
                r matches Ok(request) && request@ == self.call(method, path, Some(message@), media)
            } else {
                r == Err::<Request, Error>(Error::ConstraintViolation)
            },
            Err(text) => r == Err::<Request, Error>(Error::Serialization(text)),
        }
    }
}

impl View for Github {
    type V = GithubView;

    closed spec fn view(&self) -> GithubView {
        GithubView { host: self.host@, agent: self.agent@, credentials: held(self.credentials) }
    }
}

impl Clone for Github {
    fn clone(&self) -> (r: Self)
        ensures
            r@ == self@,
    {
        let credentials = match &self.credentials {
            Some(c) => Some(c.clone()),
            None => None,
        };
        Github { host: self.host.clone(), agent: self.agent.clone(), credentials }
    }
}

impl Github {
    /// A client of the public host.
    pub fn new(agent: &str, credentials: Option<Credentials>) -> (r: Github)
        ensures
            r@ == (GithubView {
                host: DEFAULT_HOST@,
                agent: agent@,
                credentials: held(credentials),
            }),
    {
        Github::host(DEFAULT_HOST, agent, credentials)
    }

    /// A client of the host at the address `host`.
    pub fn host(host: &str, agent: &str, credentials: Option<Credentials>) -> (r: Github)
        ensures
            r@ == (GithubView { host: host@, agent: agent@, credentials: held(credentials) }),
    {
        Github { host: String::from_str(host), agent: String::from_str(agent), credentials }
    }

    /// The absolute address of `path` on this client's host.
    pub fn url(&self, path: &str) -> (r: String)
        ensures
            r@ == self@.host + path@,
    {
        let mut out = self.host.clone();
        out.append(path);
        out
    }

    /// The address that a request for `url` goes to.
    fn address(&self, url: &str) -> (r: String)
        ensures
            r@ == target(url@, self@.credentials),
    {
        let mut out = String::from_str(url);
        match &self.credentials {
            Some(Credentials::Client(id, secret)) => {
                let mut pairs: Vec<(String, String)> = Vec::new();
                pairs.push((String::from_str("client_id"), id.clone()));
                pairs.push((String::from_str("client_secret"), secret.clone()));
                assert(pairs_of(pairs@) =~= seq![
                    ("client_id"@, id@),
                    ("client_secret"@, secret@),
                ]);
                let query = form_urlencode(&pairs);
                if has_char(url, '?') {
                    out.append("&");
                } else {
                    out.append("?");
                }
                out.append(query.as_str());
                out
            },
            _ => out,
        }
    }

    /// The `Authorization` header of this client's requests.
    fn authorize(&self) -> (r: Option<String>)
        ensures
            text_of(r) == authorization(self@.credentials),
    {
        match &self.credentials {
            Some(Credentials::Token(token)) => {
                let mut out = String::from_str("token ");
                out.append(token.as_str());
                Some(out)
            },
            Some(Credentials::JWT(token)) => {
                let mut out = String::from_str("Bearer ");
                out.append(token.as_str());
                Some(out)
            },
            _ => None,
        }
    }

    /// Prepares a call to the absolute address `url`. Where this client's
    /// credential does not meet `authentication`, the call fails here and no
    /// request comes into being; otherwise the request is returned, ready to be
    /// sent once.
    pub fn request(
        &self,
        method: Method,
        url: &str,
        body: Option<Vec<u8>>,
        media: MediaType,
        authentication: AuthenticationConstraint,
    ) -> (r: Result<Request, Error>)
        ensures
            authentication.permits(self@.credentials) ==> (r matches Ok(request) && request@
                == self@.prepare(method, url@, bytes_of(body), media)),
            !authentication.permits(self@.credentials) ==> r == Err::<Request, Error>(
                Error::ConstraintViolation,
            ),
    {
        if !authentication.admits(&self.credentials) {
            return Err(Error::ConstraintViolation);
        }
        Ok(
            Request {
                method,
                url: self.address(url),
                accept: media.to_header(),
                user_agent: self.agent.clone(),
                authorization: self.authorize(),
                body,
            },
        )
    }

    /// Prepares a call to `path` on this client's host.
    pub fn request_entity(
        &self,
        method: Method,
        path: &str,
        body: Option<Vec<u8>>,
        media: MediaType,
        authentication: AuthenticationConstraint,
    ) -> (r: Result<Request, Error>)
        ensures
            authentication.permits(self@.credentials) ==> (r matches Ok(request) && request@
                == self@.call(method, path@, bytes_of(body), media)),
            !authentication.permits(self@.credentials) ==> r == Err::<Request, Error>(
                Error::ConstraintViolation,
            ),
    {
        let url = self.url(path);
        self.request(method, url.as_str(), body, media, authentication)
    }

    /// Prepares a call to `path` whose body was encoded beforehand. Where the
    /// encoding has failed, the call fails here with the encoder's account, and
    /// no request comes into being.
    pub fn request_encoded(
        &self,
        method: Method,
        path: &str,
        encoded: Result<Vec<u8>, String>,
        media: MediaType,
        authentication: AuthenticationConstraint,
    ) -> (r: Result<Request, Error>)
        ensures
            self@.sends(method, path@, encoded, media, authentication, r),
    {
        match encoded {
            Ok(message) => self.request_entity(method, path, Some(message), media, authentication),
            Err(text) => Err(Error::Serialization(text)),
        }
    }

    /// Prepares the reading of the resource at `path`.
    pub fn get(&self, path: &str) -> (r: Result<Request, Error>)
        ensures
            r matches Ok(request) && request@ == self@.call(
                Method::Get,
                path@,
                None,
                MediaType::Json,
            ),
    {
        self.get_media(path, MediaType::Json)
    }

    /// Prepares the reading of the resource at `path` in the representation
    /// `media`.
    pub fn get_media(&self, path: &str, media: MediaType) -> (r: Result<Request, Error>)
        ensures
            r matches Ok(request) && request@ == self@.call(Method::Get, path@, None, media),
    {
        self.request_entity(Method::Get, path, None, media, AuthenticationConstraint::Unconstrained)
    }

    /// A stream over the listing at `path`. Nothing is sent before the
    /// stream is pulled.
    pub fn get_stream<T>(&self, path: &str) -> (r: PageStream<T>)
        ensures
            r@ == StreamView::<T>::fresh(self@, path@),
    {
        PageStream::new(
            self.clone(),
            path,
            MediaType::Json,
            AuthenticationConstraint::Unconstrained,
        )
    }

    /// Prepares the removal of the resource at `path`.
    pub fn delete(&self, path: &str) -> (r: Result<Request, Error>)
        ensures
            r matches Ok(request) && request@ == self@.call(
                Method::Delete,
                path@,
                None,
                MediaType::Json,
            ),
    {
        self.request_entity(
            Method::Delete,
            path,
            None,
            MediaType::Json,
            AuthenticationConstraint::Unconstrained,
        )
    }

    /// Prepares the sending of `message` to `path`.
    pub fn post(&self, path: &str, message: Vec<u8>) -> (r: Result<Request, Error>)
        ensures
            r matches Ok(request) && request@ == self@.call(
                Method::Post,
                path@,
                Some(message@),
                MediaType::Json,
            ),
    {
        self.post_media(path, message, MediaType::Json, AuthenticationConstraint::Unconstrained)
    }

    /// Prepares the sending of `message` to `path`, in the representation
    /// `media` and under the constraint `authentication`.
    pub fn post_media(
        &self,
        path: &str,
        message: Vec<u8>,
        media: MediaType,
        authentication: AuthenticationConstraint,
    ) -> (r: Result<Request, Error>)
        ensures
            authentication.permits(self@.credentials) ==> (r matches Ok(request) && request@
                == self@.call(Method::Post, path@, Some(message@), media)),
            !authentication.permits(self@.credentials) ==> r == Err::<Request, Error>(
                Error::ConstraintViolation,
            ),
    {
        self.request_entity(Method::Post, path, Some(message), media, authentication)
    }

    /// Prepares a partial update of the resource at `path` with `message`.
    pub fn patch(&self, path: &str, message: Vec<u8>) -> (r: Result<Request, Error>)
        ensures
            r matches Ok(request) && request@ == self@.call(
                Method::Patch,
                path@,
                Some(message@),
                MediaType::Json,
            ),
    {
        self.patch_media(path, message, MediaType::Json)
    }

    /// Prepares a partial update of the resource at `path` with `message`,
    /// in the representation `media`.
    pub fn patch_media(&self, path: &str, message: Vec<u8>, media: MediaType) -> (r: Result<
        Request,
        Error,
    >)
        ensures
            r matches Ok(request) && request@ == self@.call(
                Method::Patch,
                path@,
                Some(message@),
                media,
            ),
    {
        self.request_entity(
            Method::Patch,
            path,
            Some(message),
            media,
            AuthenticationConstraint::Unconstrained,
        )
    }

    /// Prepares the replacement of the resource at `path` by `message`.
    pub fn put(&self, path: &str, message: Vec<u8>) -> (r: Result<Request, Error>)
        ensures
            r matches Ok(request) && request@ == self@.call(
                Method::Put,
                path@,
                Some(message@),
                MediaType::Json,
            ),
    {
        self.put_media(path, message, MediaType::Json)
    }

    /// Prepares the replacement of the resource at `path` by `message`, in
    /// the representation `media`.
    pub fn put_media(&self, path: &str, message: Vec<u8>, media: MediaType) -> (r: Result<
        Request,
        Error,
    >)
        ensures
            r matches Ok(request) && request@ == self@.call(
                Method::Put,
                path@,
                Some(message@),
                media,
            ),
    {
        self.request_entity(
            Method::Put,
            path,
            Some(message),
            media,
            AuthenticationConstraint::Unconstrained,
        )
    }
}

} // verus!
