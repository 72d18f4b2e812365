//! Encodings produced by outside crates: form encoding of bytes for use in a
//! URL path, and JSON string literals. Each is stated here as a function on
//! characters, and the calls are trusted to agree with that statement.

use crate::text::digit;
use vstd::prelude::*;
use vstd::string::*;

verus! {

/// The character that writes the hexadecimal digit `d` in upper case.
pub open spec fn hex_upper(d: int) -> char {
    if d < 10 {
        digit(d)
    } else {
        ((55 + d) as u8) as char
    }
}

/// The character that writes the hexadecimal digit `d` in lower case.
pub open spec fn hex_lower(d: int) -> char {
    if d < 10 {
        digit(d)
    } else {
        ((87 + d) as u8) as char
    }
}

/// Whether form encoding leaves the byte as it is: `*`, `-`, `.`, `_`,
/// ASCII digits and ASCII letters.
pub open spec fn form_unchanged(b: u8) -> bool {
    ||| b == 0x2A
    ||| b == 0x2D
    ||| b == 0x2E
    ||| b == 0x5F
    ||| 0x30 <= b <= 0x39
    ||| 0x41 <= b <= 0x5A
    ||| 0x61 <= b <= 0x7A
}

/// Form encoding of one byte: itself where it stays unchanged, `+` for a
/// space, else `%` and two upper-case hexadecimal digits.
pub open spec fn form_encode_byte(b: u8) -> Seq<char> {
    if form_unchanged(b) {
        seq![b as char]
    } else if b == 0x20 {
        seq!['+']
    } else {
        seq!['%', hex_upper(b as int / 16), hex_upper(b as int % 16)]
    }
}

/// Form encoding (`application/x-www-form-urlencoded`) of a byte string:
/// the encodings of its bytes, one after another.
pub open spec fn form_encode(bytes: Seq<u8>) -> Seq<char>
    decreases bytes.len(),
{
    if bytes.len() == 0 {
        Seq::empty()
    } else {
        form_encode_byte(bytes[0]) + form_encode(bytes.drop_first())
    }
}

/// Calls `url::form_urlencoded::byte_serialize` and joins the pieces it
/// yields. Trusted: the result is the form encoding of `input` as
/// `form_encode` states it, byte by byte.
#[verifier::external_body]
pub(crate) fn byte_serialize(input: &[u8]) -> (out: String)
    ensures
        out@ == form_encode(input@),
{
    url::form_urlencoded::byte_serialize(input).collect()
}

/// What one character becomes inside a JSON string literal: a two-character
/// escape for the quote, the backslash, backspace, tab, line feed, form feed
/// and carriage return; `\u00` and two lower-case hexadecimal digits for the
/// other characters below U+0020; itself otherwise.
pub open spec fn json_escape_char(c: char) -> Seq<char> {
    let u = c as u32;
    if u == 0x22 {
        seq!['\\', '"']
    } else if u == 0x5C {
        seq!['\\', '\\']
    } else if u == 0x08 {
        seq!['\\', 'b']
    } else if u == 0x09 {
        seq!['\\', 't']
    } else if u == 0x0A {
        seq!['\\', 'n']
    } else if u == 0x0C {
        seq!['\\', 'f']
    } else if u == 0x0D {
        seq!['\\', 'r']
    } else if u < 0x20 {
        seq!['\\', 'u', '0', '0', hex_lower(u as int / 16), hex_lower(u as int % 16)]
    } else {
        seq![c]
    }
}

/// The characters of `text` as they stand between the quotes of a JSON
/// string literal.
pub open spec fn json_escape(text: Seq<char>) -> Seq<char>
    decreases text.len(),
{
    if text.len() == 0 {
        Seq::empty()
    } else {
        json_escape_char(text[0]) + json_escape(text.drop_first())
    }
}

/// The JSON string literal for `text`, quotes included.
pub open spec fn json_quoted(text: Seq<char>) -> Seq<char> {
    seq!['"'] + json_escape(text) + seq!['"']
}

/// Renders `text` as a JSON string with `serde_json` (the `Display` form of
/// `serde_json::Value::String`). Trusted: the result is the literal that
/// `json_quoted` states, in the compact form without added white space.
#[verifier::external_body]
pub(crate) fn json_string(text: &str) -> (out: String)
    ensures
        out@ == json_quoted(text@),
{
    serde_json::Value::String(text.to_owned()).to_string()
}

/// The form encoding of the bytes of `text` in UTF-8.
pub fn form_encode_str(text: &str) -> (out: String)
    ensures
        out@ == form_encode(text.spec_bytes()),
{
    byte_serialize(text.as_bytes())
}

/// A JSON object with the single member `key`, whose value is the string
/// `value`: `{"key":"value"}`, both written as JSON string literals.
pub fn json_object_1(key: &str, value: &str) -> (out: String)
    ensures
        out@ == json_member_object(key@, value@),
{
    let mut out = String::from_str("{");
    let k = json_string(key);
    out.append(k.as_str());
    out.append(":");
    let v = json_string(value);
    out.append(v.as_str());
    out.append("}");
    out
}

/// The compact JSON text of an object with one string member.
pub open spec fn json_member_object(key: Seq<char>, value: Seq<char>) -> Seq<char> {
    "{"@ + json_quoted(key) + ":"@ + json_quoted(value) + "}"@
}

} // verus!
