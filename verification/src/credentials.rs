//! Credentials and the constraints an endpoint puts on them.
use vstd::prelude::*;

verus! {

/// The credential a client presents. A client without one holds no value of
/// this type.
#[derive(Debug, PartialEq, Eq)]
pub enum Credentials {
    /// A personal access token.
    Token(String),
    /// The id and the secret of an OAuth application.
    Client(String, String),
    /// A signed token that speaks for an application.
    JWT(String),
}

/// The mathematical value of a [`Credentials`].
pub enum CredentialsView {
    Token(Seq<char>),
    Client(Seq<char>, Seq<char>),
    JWT(Seq<char>),
}

impl View for Credentials {
    type V = CredentialsView;

    open spec fn view(&self) -> CredentialsView {
        match self {
            Credentials::Token(t) => CredentialsView::Token(t@),
            Credentials::Client(id, secret) => CredentialsView::Client(id@, secret@),
            Credentials::JWT(t) => CredentialsView::JWT(t@),
        }
    }
}

impl Clone for Credentials {
    fn clone(&self) -> (r: Self)
        ensures
            r@ == self@,
    {
        match self {
            Credentials::Token(t) => Credentials::Token(t.clone()),
            Credentials::Client(id, secret) => Credentials::Client(id.clone(), secret.clone()),
            Credentials::JWT(t) => Credentials::JWT(t.clone()),
        }
    }
}

/// The value of a credential that may be absent.
pub open spec fn held(credentials: Option<Credentials>) -> Option<CredentialsView> {
    match credentials {
        Some(c) => Some(c@),
        None => None,
    }
}

/// What an endpoint asks of the credential that a request is sent with.
#[derive(Clone, Copy, Debug, PartialEq, Eq, Structural)]
pub enum AuthenticationConstraint {
    /// Any credential will do, and so will none.
    Unconstrained,
    /// Only a token that speaks for an application will do.
    JWT,
}

impl AuthenticationConstraint {
    /// Whether a request under this constraint may go out with `credentials`.
    pub open spec fn permits(self, credentials: Option<CredentialsView>) -> bool {
        match self {
            AuthenticationConstraint::Unconstrained => true,
            AuthenticationConstraint::JWT => credentials matches Some(CredentialsView::JWT(_)),
        }
    }

    /// Decides whether a request under this constraint may go out with
    /// `credentials`.
    pub fn admits(&self, credentials: &Option<Credentials>) -> (r: bool)
        ensures
            r == self.permits(held(*credentials)),
    {
        match self {
            AuthenticationConstraint::Unconstrained => true,
            AuthenticationConstraint::JWT => match credentials {
                Some(Credentials::JWT(_)) => true,
                _ => false,
            },
        }
    }
}

} // verus!
