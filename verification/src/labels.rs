//! Labels of issues.
use vstd::prelude::*;

verus! {

/// A label as the server describes it.
#[derive(Debug, Clone, PartialEq, Eq)]
pub struct Label {
    pub url: String,
    pub name: String,
    pub color: String,
}

} // verus!
