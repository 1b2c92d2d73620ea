//! JSON text produced the way `serde_json` writes it.
use vstd::prelude::*;

verus! {

/// `serde_json::Value`, carried through the library without being looked into.
#[verifier::external_type_specification]
#[verifier::external_body]
pub struct ExJsonValue(serde_json::Value);

/// A lowercase hexadecimal digit for `d` in `0..16`.
pub open spec fn hex_lower(d: int) -> char {
    if d < 10 {
        ((48 + d) as u32) as char
    } else {
        ((87 + d) as u32) as char
    }
}

/// How `serde_json` writes one character inside a string literal.
pub open spec fn json_escape_char(c: char) -> Seq<char> {
    let n = c as u32;
    if c == '"' {
        seq!['\\', '"']
    } else if c == '\\' {
        seq!['\\', '\\']
    } else if n == 0x08 {
        seq!['\\', 'b']
    } else if n == 0x0c {
        seq!['\\', 'f']
    } else if n == 0x0a {
        seq!['\\', 'n']
    } else if n == 0x0d {
        seq!['\\', 'r']
    } else if n == 0x09 {
        seq!['\\', 't']
    } else if n < 0x20 {
        seq!['\\', 'u', '0', '0', hex_lower((n / 16) as int), hex_lower((n % 16) as int)]
    } else {
        seq![c]
    }
}

pub open spec fn json_escape(s: Seq<char>) -> Seq<char>
    decreases s.len(),
{
    if s.len() == 0 {
        Seq::empty()
    } else {
        json_escape_char(s[0]) + json_escape(s.drop_first())
    }
}

/// A JSON string literal holding `s`.
pub open spec fn json_quoted(s: Seq<char>) -> Seq<char> {
    seq!['"'] + json_escape(s) + seq!['"']
}

/// `serde_json`'s text for the string `s`: the contract states its escaping rules, read
/// from the crate's `ESCAPE` table (quote, backslash and control characters are escaped,
/// every other character is written as it is).
#[verifier::external_body]
pub(crate) fn json_quote(s: &str) -> (r: String)
    ensures
        r@ == json_quoted(s@),
{
    serde_json::Value::String(s.to_string()).to_string()
}

/// `serde_json::Value::clone`: the derived clone gives back an equal value.
#[verifier::external_body]
pub(crate) fn clone_json(v: &serde_json::Value) -> (r: serde_json::Value)
    ensures
        r == *v,
{
    v.clone()
}

/// `serde_json::Value::Object` with one string member. Nothing is stated of the value,
/// which the library only carries.
#[verifier::external_body]
pub(crate) fn json_string_object(key: &str, value: &str) -> serde_json::Value {
    let mut map = serde_json::Map::new();
    map.insert(key.to_string(), serde_json::Value::String(value.to_string()));
    serde_json::Value::Object(map)
}

/// What reading `text` as JSON gives for its member `key`: that member when it is a
/// string, nothing when it is absent or not a string, or the parser's message when
/// `text` is not JSON.
pub uninterp spec fn json_member_string(text: Seq<char>, key: Seq<char>) -> Result<
    Option<Seq<char>>,
    Seq<char>,
>;

/// `serde_json::from_str::<Value>` on `text`, then `Value::as_str` on the member `key`;
/// a text that is not JSON gives the error's `Display` text. The result is the one
/// named by [`json_member_string`].
#[verifier::external_body]
pub(crate) fn json_member_text(text: &str, key: &str) -> (r: Result<Option<String>, String>)
    ensures
        json_member_string(text@, key@) == match r {
            Ok(Some(t)) => Ok(Some(t@)),
            Ok(None) => Ok(None),
            Err(e) => Err::<Option<Seq<char>>, Seq<char>>(e@),
        },
{
    match serde_json::from_str::<serde_json::Value>(text) {
        Ok(v) => Ok(v[key].as_str().map(String::from)),
        Err(e) => Err(e.to_string()),
    }
}

/// The member `key` of a JSON text, when the text is JSON and that member is a string.
pub open spec fn string_member_spec(text: Seq<char>, key: Seq<char>) -> Option<Seq<char>> {
    match json_member_string(text, key) {
        Ok(Some(t)) => Some(t),
        _ => None,
    }
}

/// Reads the member `key` of a JSON text as a string; a text that is not JSON, or a
/// member that is absent or not a string, gives nothing.
pub fn string_member(text: &str, key: &str) -> (r: Option<String>)
    ensures
        match r {
            Some(t) => string_member_spec(text@, key@) == Some(t@),
            None => string_member_spec(text@, key@) is None,
        },
{
    match json_member_text(text, key) {
        Ok(Some(t)) => Some(t),
        _ => None,
    }
}

} // verus!
