//! JSON text of plain values, and plain values out of JSON text.
use crate::text::{text_of, views};
use vstd::prelude::*;

verus! {

/// The JSON text of a list of strings as `serde_json` writes it: an array
/// of the strings in order.
pub uninterp spec fn json_strings(items: Seq<Seq<char>>) -> Seq<u8>;

/// What stands at one place of a JSON document, as far as this library
/// reads it.
#[derive(Debug, Clone, PartialEq, Eq)]
pub enum Node {
    /// A string.
    Text(String),
    /// An array of so many elements.
    Array(usize),
    /// Anything else.
    Other,
}

/// The mathematical value of a [`Node`].
pub enum NodeView {
    Text(Seq<char>),
    Array(nat),
    Other,
}

impl View for Node {
    type V = NodeView;

    open spec fn view(&self) -> NodeView {
        match self {
            Node::Text(text) => NodeView::Text(text@),
            Node::Array(len) => NodeView::Array(*len as nat),
            Node::Other => NodeView::Other,
        }
    }
}

/// The value of a node that may be absent.
pub open spec fn node_of(node: Option<Node>) -> Option<NodeView> {
    match node {
        Some(n) => Some(n@),
        None => None,
    }
}

/// What the JSON document `document` holds at the place that the JSON
/// pointer `at` names, as `serde_json` reads it; nothing where the text is no
/// JSON document and where the place does not exist.
pub uninterp spec fn json_at(document: Seq<u8>, at: Seq<char>) -> Option<NodeView>;

/// The string that a JSON document holds at the place that `at` names;
/// nothing where there is no such place and where what stands there is no
/// string.
pub open spec fn json_text_at(document: Seq<u8>, at: Seq<char>) -> Option<Seq<char>> {
    match json_at(document, at) {
        Some(NodeView::Text(text)) => Some(text),
        _ => None,
    }
}

/// The number of elements of the array that a JSON document holds at the
/// place that `at` names; nothing where there is no such place and where what
/// stands there is no array.
pub open spec fn json_len_at(document: Seq<u8>, at: Seq<char>) -> Option<nat> {
    match json_at(document, at) {
        Some(NodeView::Array(len)) => Some(len),
        _ => None,
    }
}

/// Encodes a list of strings as a JSON array.
///
/// Trusted: `serde_json::to_string` on a vector of string slices, and the
/// bytes of the text it returns. The encoder writes into a vector, and for
/// strings and a sequence of them it fails only where the writing fails, which
/// writing into a vector never does: so the call succeeds. Its bytes depend on
/// the strings alone; the contract gives them their name.
#[verifier::external_body]
pub(crate) fn encode_strings(items: &Vec<&str>) -> (r: Result<Vec<u8>, String>)
    ensures
        r is Ok,
        r->Ok_0@ == json_strings(views(items@)),
{
    serde_json::to_string(items).map(|text| text.into_bytes()).map_err(|e| e.to_string())
}

/// Looks up one place of a JSON document.
///
/// Trusted: `serde_json::from_slice` for a `serde_json::Value`, and
/// `Value::pointer` with `at` on that value; where either has nothing to give,
/// so has this. A string is handed on as it is, an array by the number of its
/// elements. The outcome depends on the two arguments alone; the contract
/// gives it its name.
#[verifier::external_body]
pub(crate) fn node_at(document: &[u8], at: &str) -> (r: Option<Node>)
    ensures
        node_of(r) == json_at(document@, at@),
{
    let value = serde_json::from_slice::<serde_json::Value>(document).ok()?;
    Some(
        match value.pointer(at)? {
            serde_json::Value::String(text) => Node::Text(text.clone()),
            serde_json::Value::Array(items) => Node::Array(items.len()),
            _ => Node::Other,
        },
    )
}

/// Reads the string at one place of a JSON document.
pub fn text_at(document: &[u8], at: &str) -> (r: Option<String>)
    ensures
        text_of(r) == json_text_at(document@, at@),
{
    match node_at(document, at) {
        Some(Node::Text(text)) => Some(text),
        _ => None,
    }
}

/// Counts the elements of the array at one place of a JSON document.
pub fn len_at(document: &[u8], at: &str) -> (r: Option<usize>)
    ensures
        match r {
            Some(n) => json_len_at(document@, at@) == Some(n as nat),
            None => json_len_at(document@, at@) is None,
        },
{
    match node_at(document, at) {
        Some(Node::Array(len)) => Some(len),
        _ => None,
    }
}

} // verus!
