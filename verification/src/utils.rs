//! Percent-encoding of text that goes into an address.
use crate::text::push_char;
use vstd::prelude::*;
use vstd::string::StringSliceAdditionalSpecFns;

verus! {

/// A set of ASCII characters that may not stand for themselves in some part
/// of an address. Each set holds the one before it.
#[derive(Clone, Copy, Debug, PartialEq, Eq, Structural)]
pub enum AsciiSet {
    /// The controls, the space, and `"`, `<`, `>` and the backtick.
    Fragment,
    /// The fragment set, and `#`, `?`, `{` and `}`.
    Path,
    /// The path set, and `/` and `%`.
    PathSegment,
}

/// The set for one segment of a path.
pub const PATH_SEGMENT: AsciiSet = AsciiSet::PathSegment;

impl AsciiSet {
    /// Whether the ASCII character with the code `b` is in this set.
    pub open spec fn contains(self, b: u8) -> bool {
        ||| b < 0x20
        ||| b == 0x7f
        ||| b == 0x20
        ||| b == 0x22
        ||| b == 0x3c
        ||| b == 0x3e
        ||| b == 0x60
        ||| (self != AsciiSet::Fragment && (b == 0x23 || b == 0x3f || b == 0x7b || b == 0x7d))
        ||| (self == AsciiSet::PathSegment && (b == 0x2f || b == 0x25))
    }

    /// Whether the byte `b` is escaped under this set: every byte is that is
    /// not ASCII, and every ASCII character of the set.
    pub open spec fn escapes(self, b: u8) -> bool {
        b >= 0x80 || self.contains(b)
    }

    /// Decides whether the byte `b` is escaped under this set.
    pub fn should_escape(&self, b: u8) -> (r: bool)
        ensures
            r == self.escapes(b),
    {
        if b >= 0x80 || b < 0x20 || b == 0x7f {
            return true;
        }
        if b == 0x20 || b == 0x22 || b == 0x3c || b == 0x3e || b == 0x60 {
            return true;
        }
        match self {
            AsciiSet::Fragment => false,
            AsciiSet::Path => b == 0x23 || b == 0x3f || b == 0x7b || b == 0x7d,
            AsciiSet::PathSegment => b == 0x23 || b == 0x3f || b == 0x7b || b == 0x7d || b == 0x2f
                || b == 0x25,
        }
    }
}

/// The character that writes `n` in base sixteen, in upper case.
pub open spec fn hex_digit(n: nat) -> char {
    if n < 10 {
        (0x30 + n) as u8 as char
    } else {
        (0x37 + n) as u8 as char
    }
}

/// The escape of the byte `b`: `%` and the two digits of `b` in base sixteen.
pub open spec fn escape(b: u8) -> Seq<char> {
    seq!['%', hex_digit((b / 16) as nat), hex_digit((b % 16) as nat)]
}

/// What stands for the byte `b` under `set`.
pub open spec fn encode_byte(b: u8, set: AsciiSet) -> Seq<char> {
    if set.escapes(b) {
        escape(b)
    } else {
        seq![b as char]
    }
}

/// What stands for `bytes` under `set`, byte after byte.
pub open spec fn encode_bytes(bytes: Seq<u8>, set: AsciiSet) -> Seq<char>
    decreases bytes.len(),
{
    if bytes.len() == 0 {
        Seq::empty()
    } else {
        encode_bytes(bytes.drop_last(), set) + encode_byte(bytes.last(), set)
    }
}

/// The percent-encoding of the text `s` under `set`: that of its bytes in
/// UTF-8.
pub open spec fn percent_encoded(s: Seq<char>, set: AsciiSet) -> Seq<char> {
    encode_bytes(vstd::utf8::encode_utf8(s), set)
}

fn hex_char(n: u8) -> (c: char)
    requires
        n < 16,
    ensures
        c == hex_digit(n as nat),
{
    if n < 10 {
        (0x30 + n) as char
    } else {
        (0x37 + n) as char
    }
}

/// Percent-encodes `input` under `set`. A byte that is not escaped stands
/// for itself; one that is becomes `%` and its two digits in base sixteen.
pub fn percent_encode(input: &str, set: AsciiSet) -> (r: String)
    ensures
        r@ == percent_encoded(input@, set),
{
    let bytes = input.as_bytes();
    let mut out = String::new();
    let mut i: usize = 0;
    while i < bytes.len()
        invariant
            i <= bytes.len(),
            bytes@ == vstd::utf8::encode_utf8(input@),
            out@ == encode_bytes(bytes@.take(i as int), set),
        decreases bytes.len() - i,
    {
        let b = bytes[i];
        let ghost before = out@;
        if set.should_escape(b) {
            push_char(&mut out, '%');
            push_char(&mut out, hex_char(b / 16));
            push_char(&mut out, hex_char(b % 16));
            assert(out@ =~= before + escape(b));
        } else {
            push_char(&mut out, b as char);
            assert(out@ =~= before + seq![b as char]);
        }
        proof {
            let now = bytes@.take(i + 1);
            assert(now.drop_last() =~= bytes@.take(i as int));
            assert(now.last() == b);
        }
        i += 1;
    }
    assert(bytes@.take(bytes.len() as int) =~= bytes@);
    out
}

} // verus!
