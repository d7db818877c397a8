//! The JSON values that flags carry, and the calls into `serde_json` that the
//! library makes.

use vstd::prelude::*;

verus! {

/// A JSON value, as `serde_json` holds it; the library carries it through unread.
#[verifier::external_type_specification]
#[verifier::external_body]
pub struct ExJsonValue(serde_json::Value);

/// An error of `serde_json`.
#[verifier::external_type_specification]
#[verifier::external_body]
pub struct ExJsonError(serde_json::Error);

/// The lower-case hexadecimal digit for `d`, which is below sixteen.
pub open spec fn hex_digit(d: nat) -> char {
    if d < 10 {
        crate::text::digit_char(d)
    } else if d == 10 {
        'a'
    } else if d == 11 {
        'b'
    } else if d == 12 {
        'c'
    } else if d == 13 {
        'd'
    } else if d == 14 {
        'e'
    } else {
        'f'
    }
}

/// How `serde_json` writes a character inside a string literal: a quote and a
/// backslash escaped, the control characters below U+0020 by their short escape
/// or as `\u00XX`, every other character as it is.
pub open spec fn json_escape(c: char) -> Seq<char> {
    if c == '"' {
        seq!['\\', '"']
    } else if c == '\\' {
        seq!['\\', '\\']
    } else if c == '\u{8}' {
        seq!['\\', 'b']
    } else if c == '\t' {
        seq!['\\', 't']
    } else if c == '\n' {
        seq!['\\', 'n']
    } else if c == '\u{c}' {
        seq!['\\', 'f']
    } else if c == '\r' {
        seq!['\\', 'r']
    } else if (c as u32) < 0x20 {
        seq!['\\', 'u', '0', '0', hex_digit((c as u32 / 16) as nat), hex_digit((c as u32 % 16) as nat)]
    } else {
        seq![c]
    }
}

/// The characters of `s`, each written as inside a JSON string literal.
pub open spec fn json_escaped(s: Seq<char>) -> Seq<char>
    decreases s.len(),
{
    if s.len() == 0 {
        Seq::empty()
    } else {
        json_escaped(s.drop_last()) + json_escape(s.last())
    }
}

/// The JSON string literal that `serde_json` writes for the text `s`.
pub open spec fn json_string(s: Seq<char>) -> Seq<char> {
    seq!['"'] + json_escaped(s) + seq!['"']
}

/// Calls `serde_json::to_string` on a string slice.
///
/// Claimed: the call succeeds, and its text is `json_string(s@)`: the escaping of
/// `format_escaped_str`. Serializing a `str` writes that text into a `Vec<u8>`,
/// and neither step can fail.
#[verifier::external_body]
pub(crate) fn json_string_literal(s: &str) -> (res: Result<String, serde_json::Error>)
    ensures
        res is Ok,
        res matches Ok(t) ==> t@ == json_string(s@),
{
    serde_json::to_string(s)
}

/// The indented text that `serde_json` writes for a JSON value.
pub uninterp spec fn pretty_text(v: serde_json::Value) -> Seq<char>;

/// Calls `serde_json::to_string_pretty` on a JSON value.
///
/// Claimed: the call succeeds, and its text is `pretty_text(*v)`. Serializing a
/// `Value` writes into a `Vec<u8>` and its maps have string keys, so it cannot fail.
#[verifier::external_body]
pub(crate) fn pretty_json(v: &serde_json::Value) -> (res: Result<String, serde_json::Error>)
    ensures
        res is Ok,
        res matches Ok(t) ==> t@ == pretty_text(*v),
{
    serde_json::to_string_pretty(v)
}

} // verus!
