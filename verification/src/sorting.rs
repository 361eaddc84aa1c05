//! The direction of a sorted listing.
use vstd::prelude::*;
use vstd::string::StringExecFns;

verus! {

/// The direction in which a listing is sorted.
#[derive(Clone, Copy, Debug, PartialEq, Eq, Structural)]
pub enum SortDirection {
    Asc,
    Desc,
}

impl SortDirection {
    /// The word that asks the server for this direction.
    pub open spec fn name(self) -> Seq<char> {
        match self {
            SortDirection::Asc => "asc"@,
            SortDirection::Desc => "desc"@,
        }
    }

    /// Writes the word that asks the server for this direction.
    pub fn to_string(&self) -> (r: String)
        ensures
            r@ == self.name(),
    {
        match self {
            SortDirection::Asc => String::from_str("asc"),
            SortDirection::Desc => String::from_str("desc"),
        }
    }
}

impl Default for SortDirection {
    fn default() -> (r: SortDirection)
        ensures
            r == SortDirection::Asc,
    {
        SortDirection::Asc
    }
}

} // verus!
