//! The ways in which a call can fail, and the server's own account of a
//! refusal.
use crate::json::{json_len_at, json_text_at, len_at, text_at};
use crate::text::{decimal, push_decimal, text_of};
use vstd::prelude::*;
use vstd::string::StringExecFns;

verus! {

/// One entry of the list of faults that the server found in a request.
#[derive(Debug, Clone, PartialEq, Eq)]
pub struct FieldErr {
    pub resource: String,
    pub field: Option<String>,
    pub code: String,
    pub message: Option<String>,
    pub documentation_url: Option<String>,
}

/// The mathematical value of a [`FieldErr`].
pub struct FieldErrView {
    pub resource: Seq<char>,
    pub field: Option<Seq<char>>,
    pub code: Seq<char>,
    pub message: Option<Seq<char>>,
    pub documentation_url: Option<Seq<char>>,
}

impl View for FieldErr {
    type V = FieldErrView;

    open spec fn view(&self) -> FieldErrView {
        FieldErrView {
            resource: self.resource@,
            field: text_of(self.field),
            code: self.code@,
            message: text_of(self.message),
            documentation_url: text_of(self.documentation_url),
        }
    }
}

/// The server's own account of why it refused a request.
#[derive(Debug, Clone, PartialEq, Eq)]
pub struct ClientError {
    pub message: String,
    pub errors: Option<Vec<FieldErr>>,
}

/// The mathematical value of a [`ClientError`].
pub struct ClientErrorView {
    pub message: Seq<char>,
    pub errors: Option<Seq<FieldErrView>>,
}

/// The values of a list of faults that may be absent.
pub open spec fn faults_of(errors: Option<Vec<FieldErr>>) -> Option<Seq<FieldErrView>> {
    match errors {
        Some(all) => Some(all@.map_values(|e: FieldErr| e@)),
        None => None,
    }
}

impl View for ClientError {
    type V = ClientErrorView;

    open spec fn view(&self) -> ClientErrorView {
        ClientErrorView { message: self.message@, errors: faults_of(self.errors) }
    }
}

/// The value of an account that may be absent.
pub open spec fn account_of(account: Option<ClientError>) -> Option<ClientErrorView> {
    match account {
        Some(a) => Some(a@),
        None => None,
    }
}

/// The JSON pointer to the member `member` of the entry `index` of the list
/// of faults.
pub open spec fn fault_pointer(index: nat, member: Seq<char>) -> Seq<char> {
    "/errors/"@ + decimal(index) + "/"@ + member
}

/// The entry `index` of the list of faults in `body`: it has a resource and
/// a code, and may have a field, a message and an address to read more at.
pub open spec fn fault_at(body: Seq<u8>, index: nat) -> Option<FieldErrView> {
    match (
        json_text_at(body, fault_pointer(index, "resource"@)),
        json_text_at(body, fault_pointer(index, "code"@)),
    ) {
        (Some(resource), Some(code)) => Some(
            FieldErrView {
                resource,
                field: json_text_at(body, fault_pointer(index, "field"@)),
                code,
                message: json_text_at(body, fault_pointer(index, "message"@)),
                documentation_url: json_text_at(
                    body,
                    fault_pointer(index, "documentation_url"@),
                ),
            },
        ),
        _ => None,
    }
}

/// The list of faults in `body`: the entries of the array `errors`, where
/// there is such an array and every one of its entries is a fault.
pub open spec fn faults(body: Seq<u8>) -> Option<Seq<FieldErrView>> {
    match json_len_at(body, "/errors"@) {
        Some(n) => if forall|i: nat| i < n ==> (#[trigger] fault_at(body, i)) is Some {
            Some(Seq::new(n, |i: int| fault_at(body, i as nat)->0))
        } else {
            None
        },
        None => None,
    }
}

/// The account that `body` holds: a JSON object with a message, and with
/// the list of faults where it has one. A body of any other shape holds none.
pub open spec fn account(body: Seq<u8>) -> Option<ClientErrorView> {
    match json_text_at(body, "/message"@) {
        Some(message) => Some(ClientErrorView { message, errors: faults(body) }),
        None => None,
    }
}

impl FieldErr {
    /// Reads one member of the entry `index` of the list of faults.
    fn member(body: &[u8], index: usize, member: &str) -> (r: Option<String>)
        ensures
            text_of(r) == json_text_at(body@, fault_pointer(index as nat, member@)),
    {
        let mut at = String::from_str("/errors/");
        push_decimal(&mut at, index as u64);
        at.append("/");
        at.append(member);
        text_at(body, at.as_str())
    }

    /// Puts a fault together from what was read of its members: there is
    /// one where there is a resource and a code.
    pub fn from_members(
        resource: Option<String>,
        field: Option<String>,
        code: Option<String>,
        message: Option<String>,
        documentation_url: Option<String>,
    ) -> (r: Option<FieldErr>)
        ensures
            r == (match (resource, code) {
                (Some(resource), Some(code)) => Some(
                    FieldErr { resource, field, code, message, documentation_url },
                ),
                _ => None,
            }),
    {
        match (resource, code) {
            (Some(resource), Some(code)) => Some(
                FieldErr { resource, field, code, message, documentation_url },
            ),
            _ => None,
        }
    }

    /// Reads the entry `index` of the list of faults in `body`.
    pub fn decode(body: &[u8], index: usize) -> (r: Option<FieldErr>)
        ensures
            match r {
                Some(fault) => fault_at(body@, index as nat) == Some(fault@),
                None => fault_at(body@, index as nat) is None,
            },
    {
        FieldErr::from_members(
            FieldErr::member(body, index, "resource"),
            FieldErr::member(body, index, "field"),
            FieldErr::member(body, index, "code"),
            FieldErr::member(body, index, "message"),
            FieldErr::member(body, index, "documentation_url"),
        )
    }
}

impl ClientError {
    /// Reads the list of faults in `body`.
    fn decode_faults(body: &[u8]) -> (r: Option<Vec<FieldErr>>)
        ensures
            faults_of(r) == faults(body@),
    {
        match len_at(body, "/errors") {
            None => None,
            Some(n) => {
                let mut all: Vec<FieldErr> = Vec::new();
                let mut i: usize = 0;
                while i < n
                    invariant
                        i <= n,
                        json_len_at(body@, "/errors"@) == Some(n as nat),
                        all@.len() == i,
                        forall|j: nat| j < i ==> fault_at(body@, j) == Some(all@[j as int]@),
                    decreases n - i,
                {
                    match FieldErr::decode(body, i) {
                        Some(fault) => {
                            all.push(fault);
                        },
                        None => {
                            assert(fault_at(body@, i as nat) is None);
                            return None;
                        },
                    }
                    i += 1;
                }
                assert(all@.map_values(|e: FieldErr| e@) =~= Seq::new(
                    n as nat,
                    |i: int| fault_at(body@, i as nat)->0,
                ));
                Some(all)
            },
        }
    }

    /// Puts an account together from what was read of its members: there is
    /// one where there is a message.
    pub fn from_members(message: Option<String>, errors: Option<Vec<FieldErr>>) -> (r: Option<
        ClientError,
    >)
        ensures
            r == (match message {
                Some(message) => Some(ClientError { message, errors }),
                None => None,
            }),
    {
        match message {
            Some(message) => Some(ClientError { message, errors }),
            None => None,
        }
    }

    /// Reads `body` as the server's account of a refusal. A body that holds
    /// none, whatever else it holds, gives nothing; no body makes this fail.
    pub fn decode(body: &[u8]) -> (r: Option<ClientError>)
        ensures
            account_of(r) == account(body@),
    {
        match text_at(body, "/message") {
            Some(message) => ClientError::from_members(
                Some(message),
                ClientError::decode_faults(body),
            ),
            None => None,
        }
    }
}

/// Why a call produced no value.
#[derive(Debug, Clone, PartialEq, Eq)]
pub enum Error {
    /// The server was not reached; the text is the transport's account.
    Transport(String),
    /// The server answered with a status that is no success. `error` is its
    /// account where the body held one; `body` is the body as it came.
    Status { code: u16, error: Option<ClientError>, body: Vec<u8> },
    /// A body did not have the shape that the call expects; the text is the
    /// decoder's or encoder's account.
    Serialization(String),
    /// The client's credential does not meet what the endpoint asks for.
    ConstraintViolation,
}

} // verus!
