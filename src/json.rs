//! JSON text pieces that the engine writes, with the string quoting of serde_json.

use vstd::prelude::*;
use crate::protocol::opt_view;
use crate::text::str_eq;

verus! {

/// A lower-case hexadecimal digit.
pub open spec fn hex_digit(d: int) -> char {
    "0123456789abcdef"@[d]
}

/// How `serde_json` writes one character inside a string literal: the quote,
/// the backslash and the control characters below U+0020 are escaped, the
/// rest is written as it is.
pub open spec fn escape_char(c: char) -> Seq<char> {
    if c == '"' {
        seq!['\\', '"']
    } else if c == '\\' {
        seq!['\\', '\\']
    } else if c == '\x08' {
        seq!['\\', 'b']
    } else if c == '\t' {
        seq!['\\', 't']
    } else if c == '\n' {
        seq!['\\', 'n']
    } else if c == '\x0c' {
        seq!['\\', 'f']
    } else if c == '\r' {
        seq!['\\', 'r']
    } else if (c as u32) < 0x20 {
        seq!['\\', 'u', '0', '0', hex_digit(c as int / 16), hex_digit(c as int % 16)]
    } else {
        seq![c]
    }
}

/// The escaped characters of a string.
pub open spec fn escaped(s: Seq<char>) -> Seq<char>
    decreases s.len(),
{
    if s.len() == 0 {
        Seq::empty()
    } else {
        escaped(s.drop_last()) + escape_char(s.last())
    }
}

/// The JSON string literal that `serde_json` writes for these characters.
pub open spec fn quoted_of(s: Seq<char>) -> Seq<char> {
    seq!['"'] + escaped(s) + seq!['"']
}

/// Relies on `serde_json::to_string` on a `str`: it writes the JSON string
/// literal of the characters, escaping them as `escape_char` states.
#[verifier::external_body]
pub(crate) fn json_quote(s: &str) -> (r: String)
    ensures
        r@ == quoted_of(s@),
{
    serde_json::to_string(s).unwrap_or_default()
}

/// Appends the JSON string literal of `s`.
pub(crate) fn push_quoted(out: &mut String, s: &str)
    ensures
        final(out)@ == old(out)@ + quoted_of(s@),
{
    let q = json_quote(s);
    out.append(q.as_str());
}

/// `"key":` followed by the JSON string literal of `value`.
pub open spec fn str_member(key: Seq<char>, value: Seq<char>) -> Seq<char> {
    quoted_of(key) + ":"@ + quoted_of(value)
}

/// `"key":` followed by the JSON text `raw`.
pub open spec fn raw_member(key: Seq<char>, raw: Seq<char>) -> Seq<char> {
    quoted_of(key) + ":"@ + raw
}

/// Appends a member whose value is a JSON string.
pub(crate) fn push_str_member(out: &mut String, key: &str, value: &str)
    ensures
        final(out)@ == old(out)@ + str_member(key@, value@),
{
    push_quoted(out, key);
    out.append(":");
    push_quoted(out, value);
    assert(final(out)@ =~= old(out)@ + str_member(key@, value@));
}

/// Appends a member whose value is the JSON text `raw`.
pub(crate) fn push_raw_member(out: &mut String, key: &str, raw: &str)
    ensures
        final(out)@ == old(out)@ + raw_member(key@, raw@),
{
    push_quoted(out, key);
    out.append(":");
    out.append(raw);
    assert(final(out)@ =~= old(out)@ + raw_member(key@, raw@));
}

} // verus!

verus! {

/// The texts separated by commas.
pub open spec fn join_commas(items: Seq<Seq<char>>) -> Seq<char>
    decreases items.len(),
{
    if items.len() == 0 {
        Seq::empty()
    } else if items.len() == 1 {
        items[0]
    } else {
        join_commas(items.drop_last()) + ","@ + items.last()
    }
}

/// A JSON array of the given element texts.
pub open spec fn array_text(items: Seq<Seq<char>>) -> Seq<char> {
    "["@ + join_commas(items) + "]"@
}

/// The characters of each string.
pub open spec fn texts_view(v: Seq<String>) -> Seq<Seq<char>> {
    v.map_values(|s: String| s@)
}

/// The JSON array whose elements are the given texts.
pub fn array_of(items: &Vec<String>) -> (r: String)
    ensures
        r@ == array_text(texts_view(items@)),
{
    let mut out = String::new();
    out.append("[");
    let ghost start = out@;
    let ghost iv = texts_view(items@);
    let n = items.len();
    let mut i: usize = 0;
    while i < n
        invariant
            n == items@.len(),
            iv == texts_view(items@),
            i <= n,
            out@ == start + join_commas(iv.subrange(0, i as int)),
        decreases n - i,
    {
        if i > 0 {
            out.append(",");
        }
        out.append(items[i].as_str());
        proof {
            let next = iv.subrange(0, i + 1);
            assert(next.drop_last() =~= iv.subrange(0, i as int));
            assert(next.last() == items@[i as int]@);
            if i == 0 {
                assert(iv.subrange(0, 0).len() == 0);
            }
        }
        i = i + 1;
    }
    out.append("]");
    assert(iv.subrange(0, n as int) =~= iv);
    out
}

/// The members of the JSON object that a text holds, as `serde_json` reads
/// it: each key with its value where that value is a string. `None` where the
/// text does not parse as a JSON object.
pub uninterp spec fn object_members_of(text: Seq<char>) -> Option<Seq<(Seq<char>, Option<Seq<char>>)>>;

/// The characters of a member list.
pub open spec fn members_view(v: Seq<(String, Option<String>)>) -> Seq<(Seq<char>, Option<Seq<char>>)> {
    v.map_values(|m: (String, Option<String>)| (m.0@, opt_view(m.1)))
}

/// Relies on `serde_json::from_str` into a `Value` and `Value::as_str`: the
/// members of the object that the text parses to, with the string values
/// picked out. The answer depends on the text alone.
#[verifier::external_body]
fn parse_object(text: &str) -> (r: Option<Vec<(String, Option<String>)>>)
    ensures
        match r {
            Some(v) => object_members_of(text@) == Some(members_view(v@)),
            None => object_members_of(text@) is None,
        },
{
    match serde_json::from_str::<serde_json::Value>(text) {
        Ok(serde_json::Value::Object(m)) => Some(m.into_iter().map(|(k, v)| (k, v.as_str().map(|x| x.to_owned()))).collect()),
        _ => None,
    }
}

/// The text parses as a JSON object.
pub open spec fn is_object_text(text: Seq<char>) -> bool {
    object_members_of(text) is Some
}

/// The string value of the first member named `key`, if it is a string.
pub open spec fn member_str(members: Seq<(Seq<char>, Option<Seq<char>>)>, key: Seq<char>) -> Option<Seq<char>>
    decreases members.len(),
{
    if members.len() == 0 {
        None
    } else if members[0].0 == key {
        members[0].1
    } else {
        member_str(members.subrange(1, members.len() as int), key)
    }
}

/// The string value under `key` of the JSON object that a text holds, if any.
pub open spec fn str_field_of(object: Seq<char>, key: Seq<char>) -> Option<Seq<char>> {
    match object_members_of(object) {
        Some(m) => member_str(m, key),
        None => None,
    }
}

/// Whether the text is a JSON object.
pub fn is_json_object(text: &str) -> (r: bool)
    ensures
        r == is_object_text(text@),
{
    match parse_object(text) {
        Some(_) => true,
        None => false,
    }
}

/// The string value under `key` of the JSON object that a text holds, if any.
pub fn str_field(object: &str, key: &str) -> (r: Option<String>)
    ensures
        opt_view(r) == str_field_of(object@, key@),
{
    let members = match parse_object(object) {
        Some(m) => m,
        None => return None,
    };
    let ghost mv = members_view(members@);
    assert(object_members_of(object@) == Some(mv));
    assert(mv.subrange(0, mv.len() as int) =~= mv);
    let mut i: usize = 0;
    while i < members.len()
        invariant
            mv == members_view(members@),
            object_members_of(object@) == Some(mv),
            i <= members@.len(),
            member_str(mv, key@) == member_str(mv.subrange(i as int, mv.len() as int), key@),
        decreases members@.len() - i,
    {
        let ghost rest = mv.subrange(i as int, mv.len() as int);
        assert(rest[0] == (members@[i as int].0@, opt_view(members@[i as int].1)));
        if str_eq(members[i].0.as_str(), key) {
            assert(rest.len() > 0 && rest[0].0 == key@);
            assert(member_str(rest, key@) == rest[0].1);
            let r = match &members[i].1 {
                Some(v) => Some(v.clone()),
                None => None,
            };
            assert(opt_view(r) == opt_view(members@[i as int].1));
            return r;
        }
        assert(rest.subrange(1, rest.len() as int) =~= mv.subrange(i + 1, mv.len() as int));
        i = i + 1;
    }
    None
}

} // verus!
