//! The representation a request asks the server for.
use vstd::prelude::*;
use vstd::string::StringExecFns;

verus! {

/// The representation of a resource: the stable one, or one that is still in
/// preview and is asked for by its code name.
#[derive(Clone, Copy, Debug, PartialEq, Eq)]
pub enum MediaType {
    /// The stable JSON representation.
    Json,
    /// The preview representation with the given code name.
    Preview(&'static str),
}

impl Default for MediaType {
    fn default() -> (r: MediaType)
        ensures
            r == MediaType::Json,
    {
        MediaType::Json
    }
}

impl MediaType {
    /// The value of the `Accept` header that asks for this representation.
    pub open spec fn accept(self) -> Seq<char> {
        match self {
            MediaType::Json => "application/vnd.github+json"@,
            MediaType::Preview(name) => "application/vnd.github."@ + name@ + "-preview+json"@,
        }
    }

    /// Writes the value of the `Accept` header that asks for this
    /// representation.
    pub fn to_header(&self) -> (r: String)
        ensures
            r@ == self.accept(),
    {
        match self {
            MediaType::Json => String::from_str("application/vnd.github+json"),
            MediaType::Preview(name) => {
                let mut out = String::from_str("application/vnd.github.");
                out.append(name);
                out.append("-preview+json");
                out
            },
        }
    }
}

} // verus!
