//! `application/x-www-form-urlencoded` text: encoding request bodies and
//! reading query parameters.

use vstd::prelude::*;
use vstd::utf8::encode_utf8;

verus! {

/// A string pair as plain character sequences.
pub type PairView = (Seq<char>, Seq<char>);

/// Bytes that form encoding leaves as they are.
pub open spec fn byte_unchanged(b: u8) -> bool {
    b == 0x2a || b == 0x2d || b == 0x2e || b == 0x5f || (0x30 <= b && b <= 0x39) || (0x41 <= b
        && b <= 0x5a) || (0x61 <= b && b <= 0x7a)
}

/// Upper-case hexadecimal digit of a value below sixteen.
pub open spec fn hex_upper(n: u8) -> char {
    if n < 10 {
        (0x30 + n) as char
    } else {
        (0x37 + n) as char
    }
}

/// What form encoding writes for one byte.
pub open spec fn serialized_byte(b: u8) -> Seq<char> {
    if byte_unchanged(b) {
        seq![b as char]
    } else if b == 0x20 {
        seq!['+']
    } else {
        seq!['%', hex_upper(b / 16), hex_upper(b % 16)]
    }
}

/// Form encoding of a byte string.
pub open spec fn form_serialized(bytes: Seq<u8>) -> Seq<char>
    decreases bytes.len(),
{
    if bytes.len() == 0 {
        Seq::empty()
    } else {
        form_serialized(bytes.drop_last()) + serialized_byte(bytes.last())
    }
}

/// Form encoding of the UTF-8 bytes of a text.
pub open spec fn form_encoded(s: Seq<char>) -> Seq<char> {
    form_serialized(encode_utf8(s))
}

/// One `name=value` field of a form body.
pub open spec fn form_field(p: PairView) -> Seq<char> {
    form_encoded(p.0) + seq!['='] + form_encoded(p.1)
}

/// A form body: the fields in order, joined by `&`.
pub open spec fn form_body_of(ps: Seq<PairView>) -> Seq<char>
    decreases ps.len(),
{
    if ps.len() == 0 {
        Seq::empty()
    } else if ps.len() == 1 {
        form_field(ps[0])
    } else {
        form_body_of(ps.drop_last()) + seq!['&'] + form_field(ps.last())
    }
}

/// The name/value pairs that a form-encoded query string decodes to, in order.
pub uninterp spec fn query_pairs(q: Seq<char>) -> Seq<PairView>;

/// The character sequences held by a list of string pairs.
pub open spec fn pairs_view(v: Seq<(String, String)>) -> Seq<PairView> {
    Seq::new(v.len(), |i: int| (v[i].0@, v[i].1@))
}

/// The character sequence of an optional string.
pub open spec fn opt_view(o: Option<String>) -> Option<Seq<char>> {
    match o {
        Some(s) => Some(s@),
        None => None,
    }
}

/// The value of the last pair named `key`, if any: a later pair overrides an
/// earlier one.
pub open spec fn lookup(ps: Seq<PairView>, key: Seq<char>) -> Option<Seq<char>>
    decreases ps.len(),
{
    if ps.len() == 0 {
        None
    } else if ps.last().0 == key {
        Some(ps.last().1)
    } else {
        lookup(ps.drop_last(), key)
    }
}

/// Relies on url::form_urlencoded::byte_serialize: each byte of the input is
/// written as itself (`*-._`, digits, letters), as `+` (space) or as `%XX`
/// in upper-case hexadecimal, in order.
#[verifier::external_body]
fn encode_component(s: &str) -> (r: String)
    ensures
        r@ == form_encoded(s@),
{
    url::form_urlencoded::byte_serialize(s.as_bytes()).collect::<String>()
}

/// Relies on url::form_urlencoded::parse: the decoded name/value pairs of a
/// query string, in order.
#[verifier::external_body]
pub(crate) fn parse_query(q: &str) -> (r: Vec<(String, String)>)
    ensures
        pairs_view(r@) == query_pairs(q@),
{
    url::form_urlencoded::parse(q.as_bytes()).map(|(k, v)| (k.into_owned(), v.into_owned())).collect()
}

/// Form-encodes a text as a query or body component.
pub fn encode(s: &str) -> (r: String)
    ensures
        r@ == form_encoded(s@),
{
    encode_component(s)
}

/// Builds a form body from name/value pairs, in order.
pub fn form_body(pairs: &Vec<(String, String)>) -> (r: String)
    ensures
        r@ == form_body_of(pairs_view(pairs@)),
{
    let mut body = String::new();
    let mut i: usize = 0;
    while i < pairs.len()
        invariant
            i <= pairs@.len(),
            body@ == form_body_of(pairs_view(pairs@).take(i as int)),
        decreases pairs@.len() - i,
    {
        let ghost ps = pairs_view(pairs@);
        let key = encode_component(pairs[i].0.as_str());
        let value = encode_component(pairs[i].1.as_str());
        if i > 0 {
            body.append("&");
        }
        body.append(key.as_str());
        body.append("=");
        body.append(value.as_str());
        proof {
            reveal_strlit("&");
            reveal_strlit("=");
            assert(ps.take(i + 1).drop_last() =~= ps.take(i as int));
            assert(ps.take(i + 1).last() == ps[i as int]);
        }
        assert(body@ =~= form_body_of(pairs_view(pairs@).take(i + 1)));
        i = i + 1;
    }
    assert(pairs_view(pairs@).take(i as int) =~= pairs_view(pairs@));
    body
}

/// The value of the last pair named `key`.
pub fn find_param(pairs: &Vec<(String, String)>, key: &str) -> (r: Option<String>)
    ensures
        opt_view(r) == lookup(pairs_view(pairs@), key@),
{
    let wanted = String::from_str(key);
    let ghost ps = pairs_view(pairs@);
    let mut i: usize = pairs.len();
    assert(ps.take(i as int) =~= ps);
    while i > 0
        invariant
            i <= pairs@.len(),
            ps == pairs_view(pairs@),
            wanted@ == key@,
            lookup(ps, key@) == lookup(ps.take(i as int), key@),
        decreases i,
    {
        assert(ps.take(i as int).drop_last() =~= ps.take(i - 1));
        assert(ps.take(i as int).last() == ps[i - 1]);
        if pairs[i - 1].0 == wanted {
            return Some(pairs[i - 1].1.clone());
        }
        i = i - 1;
    }
    assert(ps.take(0) =~= Seq::<PairView>::empty());
    None
}

} // verus!
