//! Reading values out of JSON text and quoting strings as JSON, through
//! `serde_json`.
use vstd::prelude::*;

verus! {

/// The string at a JSON pointer in the document `text` (`None` when the
/// text is not JSON, nothing is there, or it is not a string).
pub uninterp spec fn json_str_at(text: Seq<char>, pointer: Seq<char>) -> Option<Seq<char>>;

/// The boolean at a JSON pointer in the document `text`.
pub uninterp spec fn json_bool_at(text: Seq<char>, pointer: Seq<char>) -> Option<bool>;

/// Lower-case hexadecimal digit of `n` (0 to 15).
pub open spec fn hex_digit(n: int) -> char {
    if n == 0 {
        '0'
    } else if n == 1 {
        '1'
    } else if n == 2 {
        '2'
    } else if n == 3 {
        '3'
    } else if n == 4 {
        '4'
    } else if n == 5 {
        '5'
    } else if n == 6 {
        '6'
    } else if n == 7 {
        '7'
    } else if n == 8 {
        '8'
    } else if n == 9 {
        '9'
    } else if n == 10 {
        'a'
    } else if n == 11 {
        'b'
    } else if n == 12 {
        'c'
    } else if n == 13 {
        'd'
    } else if n == 14 {
        'e'
    } else {
        'f'
    }
}

/// How `serde_json` writes one character inside a string literal: `"` and
/// `\` behind a backslash, the five short escapes `\b \t \n \f \r`, the other
/// control characters below U+0020 as `\u00xx`, everything else as is.
pub open spec fn json_escape_char(c: char) -> Seq<char> {
    if c == '"' {
        seq!['\\', '"']
    } else if c == '\\' {
        seq!['\\', '\\']
    } else if c == '\u{8}' {
        seq!['\\', 'b']
    } else if c == '\t' {
        seq!['\\', 't']
    } else if c == '\n' {
        seq!['\\', 'n']
    } else if c == '\u{c}' {
        seq!['\\', 'f']
    } else if c == '\r' {
        seq!['\\', 'r']
    } else if (c as u32) < 0x20 {
        seq!['\\', 'u', '0', '0', hex_digit((c as u32 / 16) as int), hex_digit((c as u32 % 16) as int)]
    } else {
        seq![c]
    }
}

/// Every character of `s` escaped, in order.
pub open spec fn json_escape(s: Seq<char>) -> Seq<char>
    decreases s.len(),
{
    if s.len() == 0 {
        Seq::empty()
    } else {
        json_escape_char(s[0]) + json_escape(s.drop_first())
    }
}

/// The JSON string literal that denotes `s`: the escaped text in quotes.
pub open spec fn json_quoted(s: Seq<char>) -> Seq<char> {
    seq!['"'] + json_escape(s) + seq!['"']
}

/// Escaped text holds no control character below U+0020, so a quoted value
/// never breaks a line of the script it is embedded in.
pub proof fn lemma_escape_has_no_controls(s: Seq<char>)
    ensures
        forall|i: int| 0 <= i < json_escape(s).len() ==> (#[trigger] json_escape(s)[i] as u32) >= 0x20,
    decreases s.len(),
{
    if s.len() > 0 {
        lemma_escape_has_no_controls(s.drop_first());
        let head = json_escape_char(s[0]);
        let c = s[0];
        assert forall|i: int| 0 <= i < head.len() implies (#[trigger] head[i] as u32) >= 0x20 by {
            if (c as u32) < 0x20 && c != '\u{8}' && c != '\t' && c != '\n' && c != '\u{c}' && c != '\r' {
            }
        }
        let rest = json_escape(s.drop_first());
        assert(json_escape(s) == head + rest);
        assert forall|i: int| 0 <= i < json_escape(s).len() implies (#[trigger] json_escape(s)[i] as u32) >= 0x20 by {
            if i < head.len() {
                assert(json_escape(s)[i] == head[i]);
            } else {
                assert(json_escape(s)[i] == rest[i - head.len()]);
            }
        }
    }
}

/// A quoted value starts and ends with `"` and holds no control character.
pub proof fn lemma_quoted_is_one_line(s: Seq<char>)
    ensures
        json_quoted(s).len() >= 2,
        json_quoted(s)[0] == '"',
        json_quoted(s)[json_quoted(s).len() - 1] == '"',
        forall|i: int| 0 <= i < json_quoted(s).len() ==> (#[trigger] json_quoted(s)[i] as u32) >= 0x20,
{
    lemma_escape_has_no_controls(s);
    let e = json_escape(s);
    assert forall|i: int| 0 <= i < json_quoted(s).len() implies (#[trigger] json_quoted(s)[i] as u32) >= 0x20 by {
        if 0 < i < json_quoted(s).len() - 1 {
            assert(json_quoted(s)[i] == e[i - 1]);
        }
    }
}

/// Calls `serde_json::from_str::<serde_json::Value>`, then `Value::pointer`
/// and `Value::as_str`. Claimed: the result is a function of the document
/// and the pointer alone.
#[verifier::external_body]
pub(crate) fn str_at(text: &str, pointer: &str) -> (r: Option<String>)
    ensures
        r.deep_view() == json_str_at(text@, pointer@),
{
    match serde_json::from_str::<serde_json::Value>(text) {
        Ok(v) => v.pointer(pointer).and_then(|x| x.as_str()).map(|x| x.to_string()),
        Err(_) => None,
    }
}

/// Calls `serde_json::from_str::<serde_json::Value>`, then `Value::pointer`
/// and `Value::as_bool`. Claimed: the result is a function of the document
/// and the pointer alone.
#[verifier::external_body]
pub(crate) fn bool_at(text: &str, pointer: &str) -> (r: Option<bool>)
    ensures
        r == json_bool_at(text@, pointer@),
{
    match serde_json::from_str::<serde_json::Value>(text) {
        Ok(v) => v.pointer(pointer).and_then(|x| x.as_bool()),
        Err(_) => None,
    }
}

/// Calls `serde_json::to_string` on a string (empty on the error it never
/// returns for a string). Claimed: the result is `s` quoted and escaped as
/// its serializer writes strings (`format_escaped_str` and its escape table).
#[verifier::external_body]
pub(crate) fn quote(s: &str) -> (r: String)
    ensures
        r@ == json_quoted(s@),
{
    serde_json::to_string(s).unwrap_or_default()
}

} // verus!
