//! Writing JSON text: the library composes the JSON documents it sends,
//! with string literals written by `serde_json`.

use vstd::prelude::*;

verus! {

/// A lower-case hexadecimal digit for a value below sixteen.
pub open spec fn json_hex_digit(d: nat) -> char {
    if d < 10 {
        (d + 48) as char
    } else {
        (d + 87) as char
    }
}

/// How `serde_json` writes one character inside a string literal: quote and
/// backslash escaped by a backslash, the five control characters with a short
/// escape written so, the other control characters below 0x20 as `\u00XX`
/// with lower-case hexadecimal digits, and every other character as itself.
pub open spec fn json_char_escape(c: char) -> Seq<char> {
    if c == '"' {
        seq!['\\', '"']
    } else if c == '\\' {
        seq!['\\', '\\']
    } else if c == '\u{8}' {
        seq!['\\', 'b']
    } else if c == '\t' {
        seq!['\\', 't']
    } else if c == '\n' {
        seq!['\\', 'n']
    } else if c == '\u{c}' {
        seq!['\\', 'f']
    } else if c == '\r' {
        seq!['\\', 'r']
    } else if (c as nat) < 0x20 {
        seq!['\\', 'u', '0', '0', json_hex_digit((c as nat) / 16), json_hex_digit((c as nat) % 16)]
    } else {
        seq![c]
    }
}

/// The escaped characters of a text.
pub open spec fn json_escaped(s: Seq<char>) -> Seq<char>
    decreases s.len(),
{
    if s.len() == 0 {
        Seq::empty()
    } else {
        json_escaped(s.drop_last()) + json_char_escape(s.last())
    }
}

/// The JSON string literal that `serde_json` writes for a text: the escaped
/// text between double quotes.
pub open spec fn json_string_text(s: Seq<char>) -> Seq<char> {
    seq!['"'] + json_escaped(s) + seq!['"']
}

/// Writes a text as a JSON string literal with `serde_json::to_string`.
///
/// Trusted: the contract claims that `serde_json::to_string` on a `str` gives
/// the text between double quotes with each character written as
/// `json_char_escape` says, which is its `ESCAPE` table and `CharEscape`
/// writing in `ser.rs`. Serialising a `str` cannot fail, so the default for
/// the error is never taken.
#[verifier::external_body]
pub(crate) fn json_string(s: &str) -> (r: String)
    ensures
        r@ == json_string_text(s@),
{
    serde_json::to_string(s).unwrap_or_default()
}

/// `"key":value` with the key written as a JSON string literal.
pub open spec fn json_member(key: Seq<char>, value: Seq<char>) -> Seq<char> {
    json_string_text(key) + ":"@ + value
}

/// Appends `"key":` followed by a JSON string literal of `value`.
pub fn push_string_member(out: &mut String, key: &str, value: &str)
    ensures
        final(out)@ == old(out)@ + json_member(key@, json_string_text(value@)),
{
    out.append(json_string(key).as_str());
    out.append(":");
    out.append(json_string(value).as_str());
}

} // verus!
