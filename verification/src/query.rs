//! Query parameters: an ordered set of named values and its form encoding.
use crate::text::text_of;
use crate::utils::escape;
use vstd::prelude::*;
use vstd::string::StringExecFns;
use vstd::utf8::{encode_utf8, is_ascii_chars, is_ascii_chars_encode_utf8};

verus! {

/// A list of name and value pairs.
pub type Pairs = Seq<(Seq<char>, Seq<char>)>;

/// Whether the byte `b` stands for itself in form encoding: the ASCII
/// letters and digits, and `*`, `-`, `.` and `_`.
pub open spec fn form_unchanged(b: u8) -> bool {
    ||| b == 0x2a
    ||| b == 0x2d
    ||| b == 0x2e
    ||| b == 0x5f
    ||| 0x30 <= b <= 0x39
    ||| 0x41 <= b <= 0x5a
    ||| 0x61 <= b <= 0x7a
}

/// What stands for the byte `b` in form encoding: itself where it is
/// unchanged, `+` for the space, else `%` and its two digits in base sixteen.
pub open spec fn form_byte(b: u8) -> Seq<char> {
    if form_unchanged(b) {
        seq![b as char]
    } else if b == 0x20 {
        seq!['+']
    } else {
        escape(b)
    }
}

/// What stands for `bytes` in form encoding, byte after byte.
pub open spec fn form_bytes(bytes: Seq<u8>) -> Seq<char>
    decreases bytes.len(),
{
    if bytes.len() == 0 {
        Seq::empty()
    } else {
        form_bytes(bytes.drop_last()) + form_byte(bytes.last())
    }
}

/// The form encoding of the text `s`: that of its bytes in UTF-8.
pub open spec fn form_text(s: Seq<char>) -> Seq<char> {
    form_bytes(encode_utf8(s))
}

/// The form encoding of one pair: its name, `=`, and its value.
pub open spec fn form_pair(pair: (Seq<char>, Seq<char>)) -> Seq<char> {
    form_text(pair.0) + seq!['='] + form_text(pair.1)
}

/// The `application/x-www-form-urlencoded` text of a list of pairs: the
/// pairs in order, each form-encoded, with `&` between neighbours.
pub open spec fn form_urlencoded(pairs: Seq<(Seq<char>, Seq<char>)>) -> Seq<char>
    decreases pairs.len(),
{
    if pairs.len() == 0 {
        Seq::empty()
    } else if pairs.len() == 1 {
        form_pair(pairs[0])
    } else {
        form_urlencoded(pairs.drop_last()) + seq!['&'] + form_pair(pairs.last())
    }
}

/// Whether form encoding leaves the character `c` as it is.
pub open spec fn form_plain(c: char) -> bool {
    c <= '\u{7f}' && form_unchanged(c as u8)
}

proof fn lemma_ascii_char(c: char)
    ensures
        '\0' <= c,
        c <= '\u{7f}' ==> (c as u8) as char == c,
{
}

proof fn lemma_form_bytes_plain(bytes: Seq<u8>, s: Seq<char>)
    requires
        bytes.len() == s.len(),
        forall|i: int| 0 <= i < s.len() ==> form_plain(#[trigger] s[i]) && bytes[i] == s[i] as u8,
    ensures
        form_bytes(bytes) == s,
    decreases bytes.len(),
{
    if bytes.len() > 0 {
        let last = s.last();
        assert(form_plain(last) && bytes.last() == last as u8);
        lemma_ascii_char(last);
        lemma_form_bytes_plain(bytes.drop_last(), s.drop_last());
        assert(form_bytes(bytes) =~= s.drop_last() + seq![last]);
        assert(s.drop_last() + seq![last] =~= s);
    } else {
        assert(s =~= Seq::<char>::empty());
    }
}

/// A text of ASCII letters and digits, `*`, `-`, `.` and `_` alone is its
/// own form encoding.
pub proof fn lemma_form_text_plain(s: Seq<char>)
    requires
        forall|i: int| 0 <= i < s.len() ==> form_plain(#[trigger] s[i]),
    ensures
        form_text(s) == s,
{
    assert forall|i: int| 0 <= i < s.len() implies '\0' <= #[trigger] s[i] <= '\u{7f}' by {
        assert(form_plain(s[i]));
        lemma_ascii_char(s[i]);
    }
    assert(is_ascii_chars(s));
    is_ascii_chars_encode_utf8(s);
    lemma_form_bytes_plain(encode_utf8(s), s);
}

/// The values of a vector of pairs of strings.
pub open spec fn pairs_of(pairs: Seq<(String, String)>) -> Pairs {
    pairs.map_values(|p: (String, String)| (p.0@, p.1@))
}

/// Serializes pairs as `application/x-www-form-urlencoded` text.
///
/// Trusted: `url::form_urlencoded::Serializer`, started on an empty string,
/// fed the pairs in order by `extend_pairs`, and closed by `finish`. For each
/// pair it writes `&` unless the text is still empty, then the name, `=` and
/// the value; of a name or value it writes the UTF-8 bytes, a letter, a digit
/// and `*`, `-`, `.`, `_` as they are, the space as `+`, any other byte as `%`
/// and two digits in base sixteen, in upper case.
#[verifier::external_body]
pub(crate) fn form_urlencode(pairs: &Vec<(String, String)>) -> (r: String)
    ensures
        r@ == form_urlencoded(pairs_of(pairs@)),
{
    url::form_urlencoded::Serializer::new(String::new()).extend_pairs(pairs).finish()
}

/// The query that stands for `params`: their form encoding, or nothing
/// where there are none.
pub open spec fn serialized(params: Pairs) -> Option<Seq<char>> {
    if params.len() == 0 {
        None
    } else {
        Some(form_urlencoded(params))
    }
}

/// `path` with `query` behind a question mark, or `path` alone where there
/// is no query.
pub open spec fn with_query(path: Seq<char>, query: Option<Seq<char>>) -> Seq<char> {
    match query {
        Some(q) => path + "?"@ + q,
        None => path,
    }
}

/// Writes `path` with `query` behind a question mark, or `path` alone where
/// there is no query.
pub fn join_query(path: String, query: Option<String>) -> (r: String)
    ensures
        r@ == with_query(path@, text_of(query)),
{
    match query {
        Some(q) => {
            let mut out = path;
            out.append("?");
            out.append(q.as_str());
            out
        },
        None => path,
    }
}

/// Whether some pair of `pairs` is named `key`.
pub open spec fn has_key(pairs: Pairs, key: Seq<char>) -> bool {
    exists|i: int| 0 <= i < pairs.len() && (#[trigger] pairs[i]).0 == key
}

/// Whether no two pairs of `pairs` share a name.
pub open spec fn distinct_keys(pairs: Pairs) -> bool {
    forall|i: int, j: int|
        0 <= i < j < pairs.len() ==> (#[trigger] pairs[i]).0 != (#[trigger] pairs[j]).0
}

/// `pairs` with `key` set to `value`: in the place of the pair named `key`
/// if there is one, else at the end.
pub open spec fn put(pairs: Pairs, key: Seq<char>, value: Seq<char>) -> Pairs
    decreases pairs.len(),
{
    if pairs.len() == 0 {
        seq![(key, value)]
    } else if pairs[0].0 == key {
        seq![(key, value)] + pairs.drop_first()
    } else {
        seq![pairs[0]] + put(pairs.drop_first(), key, value)
    }
}

proof fn lemma_put_present(pairs: Pairs, key: Seq<char>, value: Seq<char>, at: int)
    requires
        0 <= at < pairs.len(),
        pairs[at].0 == key,
        forall|j: int| 0 <= j < at ==> (#[trigger] pairs[j]).0 != key,
    ensures
        put(pairs, key, value) == pairs.update(at, (key, value)),
    decreases pairs.len(),
{
    if at == 0 {
        assert(put(pairs, key, value) =~= pairs.update(at, (key, value)));
    } else {
        let rest = pairs.drop_first();
        assert forall|j: int| 0 <= j < at - 1 implies (#[trigger] rest[j]).0 != key by {
            assert(rest[j] == pairs[j + 1]);
        }
        lemma_put_present(rest, key, value, at - 1);
        assert(put(pairs, key, value) =~= pairs.update(at, (key, value)));
    }
}

proof fn lemma_put_absent(pairs: Pairs, key: Seq<char>, value: Seq<char>)
    requires
        forall|j: int| 0 <= j < pairs.len() ==> (#[trigger] pairs[j]).0 != key,
    ensures
        put(pairs, key, value) == pairs.push((key, value)),
    decreases pairs.len(),
{
    if pairs.len() == 0 {
        assert(put(pairs, key, value) =~= pairs.push((key, value)));
    } else {
        let rest = pairs.drop_first();
        assert forall|j: int| 0 <= j < rest.len() implies (#[trigger] rest[j]).0 != key by {
            assert(rest[j] == pairs[j + 1]);
        }
        lemma_put_absent(rest, key, value);
        assert(put(pairs, key, value) =~= pairs.push((key, value)));
    }
}

/// The value of the first pair of `pairs` that is named `key`.
pub open spec fn value_of(pairs: Pairs, key: Seq<char>) -> Option<Seq<char>>
    decreases pairs.len(),
{
    if pairs.len() == 0 {
        None
    } else if pairs[0].0 == key {
        Some(pairs[0].1)
    } else {
        value_of(pairs.drop_first(), key)
    }
}

/// Setting a name gives that name the new value and leaves every other
/// name with the value it had, or without one.
pub proof fn lemma_put_sets_one_name(
    pairs: Pairs,
    key: Seq<char>,
    value: Seq<char>,
    other: Seq<char>,
)
    ensures
        value_of(put(pairs, key, value), key) == Some(value),
        other != key ==> value_of(put(pairs, key, value), other) == value_of(pairs, other),
    decreases pairs.len(),
{
    let after = put(pairs, key, value);
    if pairs.len() == 0 {
        assert(after.drop_first() =~= pairs);
    } else if pairs[0].0 == key {
        assert(after.drop_first() =~= pairs.drop_first());
    } else {
        lemma_put_sets_one_name(pairs.drop_first(), key, value, other);
        assert(after.drop_first() =~= put(pairs.drop_first(), key, value));
    }
}

/// Setting a name keeps the names distinct and leaves the name set; the
/// list grows by one exactly where the name is new.
pub proof fn lemma_put_keeps_distinct(pairs: Pairs, key: Seq<char>, value: Seq<char>)
    requires
        distinct_keys(pairs),
    ensures
        distinct_keys(put(pairs, key, value)),
        has_key(put(pairs, key, value), key),
        put(pairs, key, value).len() == if has_key(pairs, key) {
            pairs.len()
        } else {
            pairs.len() + 1
        },
{
    if has_key(pairs, key) {
        let at = choose|i: int| 0 <= i < pairs.len() && (#[trigger] pairs[i]).0 == key;
        assert forall|j: int| 0 <= j < at implies (#[trigger] pairs[j]).0 != key by {}
        lemma_put_present(pairs, key, value, at);
        let after = pairs.update(at, (key, value));
        assert(after[at].0 == key);
        assert forall|i: int, j: int| 0 <= i < j < after.len() implies (#[trigger] after[i]).0 != (
        #[trigger] after[j]).0 by {
            assert(after[i].0 == pairs[i].0);
            assert(after[j].0 == pairs[j].0);
        }
    } else {
        lemma_put_absent(pairs, key, value);
        let after = pairs.push((key, value));
        assert(after[pairs.len() as int].0 == key);
        assert forall|i: int, j: int| 0 <= i < j < after.len() implies (#[trigger] after[i]).0 != (
        #[trigger] after[j]).0 by {
            if j < pairs.len() {
                assert(after[i] == pairs[i]);
                assert(after[j] == pairs[j]);
            } else {
                assert(after[i] == pairs[i]);
            }
        }
    }
}

/// Sets `key` to `value` in a list of pairs with distinct names.
fn set_pair(pairs: &mut Vec<(String, String)>, key: &str, value: String)
    requires
        distinct_keys(pairs_of(old(pairs)@)),
    ensures
        pairs_of(final(pairs)@) == put(pairs_of(old(pairs)@), key@, value@),
        distinct_keys(pairs_of(final(pairs)@)),
{
    let ghost before = pairs_of(pairs@);
    let name = String::from_str(key);
    let mut i: usize = 0;
    while i < pairs.len()
        invariant
            i <= pairs.len(),
            name@ == key@,
            pairs_of(pairs@) == before,
            before == pairs_of(old(pairs)@),
            distinct_keys(before),
            forall|j: int| 0 <= j < i ==> (#[trigger] before[j]).0 != key@,
        decreases pairs.len() - i,
    {
        if pairs[i].0 == name {
            proof {
                assert(before[i as int].0 == pairs[i as int].0@);
                lemma_put_present(before, key@, value@, i as int);
                lemma_put_keeps_distinct(before, key@, value@);
            }
            pairs.set(i, (name, value));
            assert(pairs_of(pairs@) =~= before.update(i as int, (key@, value@)));
            return ;
        }
        assert(before[i as int].0 == pairs[i as int].0@);
        i += 1;
    }
    proof {
        lemma_put_absent(before, key@, value@);
        lemma_put_keeps_distinct(before, key@, value@);
    }
    pairs.push((name, value));
    assert(pairs_of(pairs@) =~= before.push((key@, value@)));
}

/// The parameters of a query: named values, no name twice, in the order in
/// which the names were first set. That no name occurs twice holds of every
/// value of this type; what makes, changes or reads one says so.
#[derive(Debug, PartialEq, Eq)]
pub struct Params {
    pairs: Vec<(String, String)>,
}

impl View for Params {
    type V = Pairs;

    closed spec fn view(&self) -> Pairs {
        pairs_of(self.pairs@)
    }
}

impl Params {
    #[verifier::type_invariant]
    spec fn well_formed(&self) -> bool {
        distinct_keys(pairs_of(self.pairs@))
    }

    /// The empty set of parameters.
    pub fn new() -> (r: Params)
        ensures
            r@ == Pairs::empty(),
            distinct_keys(r@),
    {
        let pairs: Vec<(String, String)> = Vec::new();
        assert(pairs_of(pairs@) =~= Pairs::empty());
        Params { pairs }
    }

    /// Whether no parameter is set.
    pub fn is_empty(&self) -> (r: bool)
        ensures
            r == (self@.len() == 0),
    {
        self.pairs.len() == 0
    }

    /// Sets the parameter `key` to `value`.
    pub fn insert(&mut self, key: &str, value: String)
        ensures
            final(self)@ == put(old(self)@, key@, value@),
            distinct_keys(final(self)@),
    {
        proof {
            use_type_invariant(&*self);
        }
        let mut taken = Params::new();
        core::mem::swap(self, &mut taken);
        let Params { pairs } = taken;
        let mut pairs = pairs;
        set_pair(&mut pairs, key, value);
        *self = Params { pairs };
    }

    /// The parameters as pairs of a name and a value, in order.
    pub fn to_vec(&self) -> (r: Vec<(String, String)>)
        ensures
            pairs_of(r@) == self@,
    {
        let mut pairs: Vec<(String, String)> = Vec::new();
        let mut i: usize = 0;
        while i < self.pairs.len()
            invariant
                i <= self.pairs.len(),
                pairs_of(pairs@) == pairs_of(self.pairs@).take(i as int),
            decreases self.pairs.len() - i,
        {
            let pair = (self.pairs[i].0.clone(), self.pairs[i].1.clone());
            let ghost copied = pairs_of(pairs@);
            pairs.push(pair);
            i += 1;
            assert(pairs_of(pairs@) =~= copied.push((pair.0@, pair.1@)));
            assert(pairs_of(pairs@) =~= pairs_of(self.pairs@).take(i as int));
        }
        assert(pairs_of(pairs@) =~= pairs_of(self.pairs@));
        pairs
    }

    /// The parameters as `application/x-www-form-urlencoded` text, or nothing
    /// where no parameter is set.
    pub fn serialize(&self) -> (r: Option<String>)
        ensures
            text_of(r) == serialized(self@),
            distinct_keys(self@),
    {
        proof {
            use_type_invariant(self);
        }
        if self.pairs.len() == 0 {
            None
        } else {
            Some(form_urlencode(&self.pairs))
        }
    }
}

impl Clone for Params {
    fn clone(&self) -> (r: Self)
        ensures
            r@ == self@,
            distinct_keys(r@),
    {
        proof {
            use_type_invariant(self);
        }
        Params { pairs: self.to_vec() }
    }
}

} // verus!
