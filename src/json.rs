//! The JSON documents the adapters write and read, through serde_json.
use vstd::prelude::*;

verus! {

/// The string at a JSON pointer of the document `text`, if `text` parses and
/// a string stands there.
pub uninterp spec fn json_string_at(text: Seq<char>, pointer: Seq<char>) -> Option<Seq<char>>;

/// How a JSON string literal writes one character: quote, backslash and the
/// control characters escaped, short forms where JSON has them, `\u00XX` with
/// lower-case hex digits for the others, and every other character as itself.
pub open spec fn json_escape(c: char) -> Seq<char> {
    if c == '"' {
        seq!['\\', '"']
    } else if c == '\\' {
        seq!['\\', '\\']
    } else if c == '\u{8}' {
        seq!['\\', 'b']
    } else if c == '\t' {
        seq!['\\', 't']
    } else if c == '\n' {
        seq!['\\', 'n']
    } else if c == '\u{c}' {
        seq!['\\', 'f']
    } else if c == '\r' {
        seq!['\\', 'r']
    } else if (c as u32) < 0x20 {
        seq![
            '\\',
            'u',
            '0',
            '0',
            "0123456789abcdef"@[((c as u32) / 16) as int],
            "0123456789abcdef"@[((c as u32) % 16) as int],
        ]
    } else {
        seq![c]
    }
}

/// The contents of the JSON string literal for `s`.
pub open spec fn json_escaped(s: Seq<char>) -> Seq<char>
    decreases s.len(),
{
    if s.len() == 0 {
        Seq::empty()
    } else {
        json_escaped(s.drop_last()) + json_escape(s.last())
    }
}

/// The compact JSON object with the single member `key` whose value is the string `value`.
pub open spec fn json_member_object(key: Seq<char>, value: Seq<char>) -> Seq<char> {
    "{\""@ + json_escaped(key) + "\":\""@ + json_escaped(value) + "\"}"@
}

/// Relies on serde_json::from_str into a `Value`, then `Value::pointer` and
/// `Value::as_str`: the string found at `pointer`, or none.
#[verifier::external_body]
pub(crate) fn string_at(text: &str, pointer: &str) -> (r: Option<String>)
    ensures
        r matches Some(s) ==> json_string_at(text@, pointer@) == Some(s@),
        r is None ==> json_string_at(text@, pointer@) is None,
{
    match serde_json::from_str::<serde_json::Value>(text) {
        Ok(doc) => match doc.pointer(pointer) {
            Some(found) => found.as_str().map(|s| s.to_string()),
            None => None,
        },
        Err(_) => None,
    }
}

/// Relies on serde_json::to_string on a one-entry map of strings: the compact
/// object `{"<key>":"<value>"}`, both escaped as its `ESCAPE` table does.
#[verifier::external_body]
pub(crate) fn member_object(key: &str, value: &str) -> (r: String)
    ensures
        r@ == json_member_object(key@, value@),
{
    let mut object = std::collections::BTreeMap::new();
    object.insert(key, value);
    serde_json::to_string(&object).unwrap_or_default()
}

} // verus!
