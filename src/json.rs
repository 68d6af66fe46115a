//! The committed pairs as the text of a compact JSON object: serde_json
//! encodes each key and value as a JSON string, and the object's braces,
//! colons and commas are placed here.
use vstd::prelude::*;

use crate::pairs::entries_view;
use crate::text::push_char;

verus! {

#[verifier::external_type_specification]
#[verifier::external_body]
pub struct ExJsonError(serde_json::Error);

/// A lowercase hexadecimal digit, for `0 <= n < 16`.
pub open spec fn hex_digit(n: int) -> char {
    seq!['0', '1', '2', '3', '4', '5', '6', '7', '8', '9', 'a', 'b', 'c', 'd', 'e', 'f'][n]
}

/// How one character stands inside a JSON string: quote and backslash take a
/// backslash, the usual control characters their short escapes, the other
/// characters below U+0020 a `\u00xx` escape, and every other character
/// stands for itself.
pub open spec fn escaped_char(c: char) -> Seq<char> {
    if c == '"' {
        seq!['\\', '"']
    } else if c == '\\' {
        seq!['\\', '\\']
    } else if c == '\u{8}' {
        seq!['\\', 'b']
    } else if c == '\t' {
        seq!['\\', 't']
    } else if c == '\n' {
        seq!['\\', 'n']
    } else if c == '\u{c}' {
        seq!['\\', 'f']
    } else if c == '\r' {
        seq!['\\', 'r']
    } else if (c as u32) < 0x20 {
        seq!['\\', 'u', '0', '0', hex_digit((c as u32) as int / 16), hex_digit((c as u32) as int % 16)]
    } else {
        seq![c]
    }
}

/// Each character of `s` escaped, in order.
pub open spec fn escaped(s: Seq<char>) -> Seq<char>
    decreases s.len(),
{
    if s.len() == 0 {
        Seq::empty()
    } else {
        escaped(s.drop_last()) + escaped_char(s.last())
    }
}

/// The compact JSON string literal for `s`: its escaped characters between quotes.
pub open spec fn json_string_of(s: Seq<char>) -> Seq<char> {
    seq!['"'] + escaped(s) + seq!['"']
}

/// Relies on `serde_json::to_string` applied to a `str`: it writes the quoted,
/// escaped string into a `Vec<u8>`, which cannot fail.
#[verifier::external_body]
fn encode_json_string(s: &str) -> (r: Result<String, serde_json::Error>)
    ensures
        r is Ok,
        r matches Ok(t) ==> t@ == json_string_of(s@),
{
    serde_json::to_string(s)
}

/// Why the pairs could not be written as JSON.
#[derive(Clone, Copy, Debug, PartialEq, Eq, Structural)]
pub enum JsonError {
    /// serde_json refused to encode a key or a value.
    Encode,
}

/// `"key":value` for an already encoded key and value.
pub open spec fn member_text(m: (Seq<char>, Seq<char>)) -> Seq<char> {
    m.0 + seq![':'] + m.1
}

/// The members, separated by commas.
pub open spec fn members_text(ms: Seq<(Seq<char>, Seq<char>)>) -> Seq<char>
    decreases ms.len(),
{
    if ms.len() == 0 {
        Seq::empty()
    } else if ms.len() == 1 {
        member_text(ms[0])
    } else {
        members_text(ms.drop_last()) + seq![','] + member_text(ms.last())
    }
}

/// The members between braces.
pub open spec fn object_text(ms: Seq<(Seq<char>, Seq<char>)>) -> Seq<char> {
    seq!['{'] + members_text(ms) + seq!['}']
}

/// Each key and value replaced by its JSON string literal.
pub open spec fn encoded(es: Seq<(Seq<char>, Seq<char>)>) -> Seq<(Seq<char>, Seq<char>)> {
    es.map_values(|e: (Seq<char>, Seq<char>)| (json_string_of(e.0), json_string_of(e.1)))
}

/// Writes already encoded keys and values as one JSON object, in the order given.
pub fn object_from_members(members: &Vec<(String, String)>) -> (r: String)
    ensures
        r@ == object_text(entries_view(members@)),
{
    let ghost ms = entries_view(members@);
    let mut out = String::new();
    push_char(&mut out, '{');
    let mut i: usize = 0;
    while i < members.len()
        invariant
            ms == entries_view(members@),
            i <= members.len(),
            out@ == seq!['{'] + members_text(ms.take(i as int)),
        decreases members.len() - i,
    {
        if i > 0 {
            push_char(&mut out, ',');
        }
        out.append(members[i].0.as_str());
        push_char(&mut out, ':');
        out.append(members[i].1.as_str());
        assert(ms.take(i + 1).drop_last() =~= ms.take(i as int));
        assert(out@ =~= seq!['{'] + members_text(ms.take(i + 1)));
        i += 1;
    }
    assert(ms.take(i as int) =~= ms);
    push_char(&mut out, '}');
    assert(out@ =~= object_text(ms));
    out
}

/// Encodes each key and value with serde_json, in order.
pub fn encode_entries(entries: &Vec<(String, String)>) -> (r: Result<Vec<(String, String)>, JsonError>)
    ensures
        r is Ok,
        r matches Ok(ms) ==> entries_view(ms@) == encoded(entries_view(entries@)),
{
    let ghost es = entries_view(entries@);
    let mut ms: Vec<(String, String)> = Vec::new();
    let mut i: usize = 0;
    while i < entries.len()
        invariant
            es == entries_view(entries@),
            i <= entries.len(),
            entries_view(ms@) == encoded(es).take(i as int),
        decreases entries.len() - i,
    {
        let k = match encode_json_string(entries[i].0.as_str()) {
            Ok(t) => t,
            Err(_) => {
                return Err(JsonError::Encode);
            },
        };
        let v = match encode_json_string(entries[i].1.as_str()) {
            Ok(t) => t,
            Err(_) => {
                return Err(JsonError::Encode);
            },
        };
        let ghost prev = ms@;
        ms.push((k, v));
        assert(es[i as int] == (entries@[i as int].0@, entries@[i as int].1@));
        assert(entries_view(ms@) =~= entries_view(prev).push((k@, v@)));
        assert(encoded(es).take(i + 1) =~= encoded(es).take(i as int).push(encoded(es)[i as int]));
        i += 1;
    }
    assert(encoded(es).take(i as int) =~= encoded(es));
    Ok(ms)
}

} // verus!
