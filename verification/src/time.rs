//! Instants of time, as far as addresses need them.
use crate::text::text_of;
use vstd::prelude::*;

verus! {

/// The RFC 3339 text of the instant `secs` seconds and `nanos` nanoseconds
/// after the start of 1970 in UTC, as `chrono` writes it, or nothing where
/// `chrono` has no such instant.
pub uninterp spec fn rfc3339_text(secs: int, nanos: int) -> Option<Seq<char>>;

/// Writes an instant as RFC 3339 text.
///
/// Trusted: `chrono::DateTime::from_timestamp`, which returns the instant in
/// UTC or nothing where the seconds or the nanoseconds are out of range, and
/// `DateTime::to_rfc3339` on that instant. The outcome depends on the two
/// numbers alone; the contract gives it its name.
#[verifier::external_body]
fn rfc3339(secs: i64, nanos: u32) -> (r: Option<String>)
    ensures
        text_of(r) == rfc3339_text(secs as int, nanos as int),
{
    chrono::DateTime::from_timestamp(secs, nanos).map(|instant| instant.to_rfc3339())
}

/// An instant of time in UTC that the calendar can express.
#[derive(Clone, Copy, Debug, PartialEq, Eq)]
pub struct Timestamp {
    secs: i64,
    nanos: u32,
}

impl Timestamp {
    #[verifier::type_invariant]
    spec fn expressible(self) -> bool {
        rfc3339_text(self.secs as int, self.nanos as int) is Some
    }

    /// The whole seconds since the start of 1970.
    pub closed spec fn seconds(self) -> int {
        self.secs as int
    }

    /// The nanoseconds since the last whole second.
    pub closed spec fn subsec_nanos(self) -> int {
        self.nanos as int
    }

    /// The RFC 3339 text of this instant.
    pub open spec fn text(self) -> Seq<char> {
        rfc3339_text(self.seconds(), self.subsec_nanos())->0
    }

    /// The instant `secs` seconds and `nanos` nanoseconds after the start of
    /// 1970, if the calendar can express it.
    pub fn new(secs: i64, nanos: u32) -> (r: Option<Timestamp>)
        ensures
            r is Some <==> rfc3339_text(secs as int, nanos as int) is Some,
            r matches Some(t) ==> t.seconds() == secs && t.subsec_nanos() == nanos,
    {
        match rfc3339(secs, nanos) {
            Some(_) => Some(Timestamp { secs, nanos }),
            None => None,
        }
    }

    /// The whole seconds since the start of 1970.
    pub fn timestamp(&self) -> (r: i64)
        ensures
            r == self.seconds(),
    {
        self.secs
    }

    /// The nanoseconds since the last whole second.
    pub fn timestamp_subsec_nanos(&self) -> (r: u32)
        ensures
            r == self.subsec_nanos(),
    {
        self.nanos
    }

    /// Writes this instant as RFC 3339 text.
    pub fn to_rfc3339(&self) -> (r: String)
        ensures
            r@ == self.text(),
    {
        proof {
            use_type_invariant(self);
        }
        match rfc3339(self.secs, self.nanos) {
            Some(text) => text,
            None => String::new(),
        }
    }
}

} // verus!
