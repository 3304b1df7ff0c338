//! JSON through `serde_json`: encoding a string as a JSON string literal,
//! and reading a string member of a JSON object.

use vstd::prelude::*;

verus! {

/// The lower-case hexadecimal digit for a value below sixteen.
pub open spec fn hex_digit(d: nat) -> char {
    if d < 10 {
        ((d + 48) as u32) as char
    } else {
        ((d + 87) as u32) as char
    }
}

/// How one character is written inside a JSON string literal by
/// `serde_json`: `"` and `\` and the control characters below U+0020 are
/// escaped (short forms for backspace, tab, line feed, form feed and
/// carriage return, `\u00XX` otherwise); every other character is copied.
pub open spec fn json_escape_char(c: char) -> Seq<char> {
    if c == '"' {
        seq!['\\', '"']
    } else if c == '\\' {
        seq!['\\', '\\']
    } else if c == '\u{8}' {
        seq!['\\', 'b']
    } else if c == '\t' {
        seq!['\\', 't']
    } else if c == '\n' {
        seq!['\\', 'n']
    } else if c == '\u{c}' {
        seq!['\\', 'f']
    } else if c == '\r' {
        seq!['\\', 'r']
    } else if (c as int) < 0x20 {
        seq!['\\', 'u', '0', '0', hex_digit((c as nat) / 16), hex_digit((c as nat) % 16)]
    } else {
        seq![c]
    }
}

/// The escaped contents of a JSON string literal for `s`.
pub open spec fn json_escape(s: Seq<char>) -> Seq<char>
    decreases s.len(),
{
    if s.len() == 0 {
        Seq::empty()
    } else {
        json_escape_char(s[0]) + json_escape(s.drop_first())
    }
}

/// The JSON string literal for `s`: the escaped contents between quotes.
pub open spec fn json_string_literal(s: Seq<char>) -> Seq<char> {
    seq!['"'] + json_escape(s) + seq!['"']
}

/// `serde_json::to_string` of a `&str`.
///
/// Claimed of it: the serializer writes the string through
/// `format_escaped_str`, whose escape table is `json_escape_char`, into a
/// `Vec<u8>`; writing to a `Vec` cannot fail, so the result is always `Ok`.
#[verifier::external_body]
pub(crate) fn encode_json_string(s: &str) -> (r: Result<String, ()>)
    ensures
        r is Ok,
        r.unwrap()@ == json_string_literal(s@),
{
    serde_json::to_string(s).map_err(|_| ())
}

/// The string member `key` of the JSON object written in `text`: `None`
/// when `text` is not valid JSON, is not an object, has no member `key`, or
/// that member is not a string.
pub uninterp spec fn json_string_member(text: Seq<char>, key: Seq<char>) -> Option<Seq<char>>;

/// Reads a string member of a JSON document with `serde_json`:
/// `from_str::<Value>`, then `Value::get(key)`, then `Value::as_str`.
///
/// Claimed of it: the result depends on `text` and `key` alone and is named
/// `json_string_member`; what JSON `serde_json` accepts is not restated.
#[verifier::external_body]
pub(crate) fn read_json_string_member(text: &str, key: &str) -> (r: Option<String>)
    ensures
        r.deep_view() == json_string_member(text@, key@),
{
    match serde_json::from_str::<serde_json::Value>(text) {
        Ok(value) => match value.get(key) {
            Some(member) => member.as_str().map(|m| m.to_string()),
            None => None,
        },
        Err(_) => None,
    }
}

// ---------------------------------------------------------------------------
// Reading a JSON string literal back
// ---------------------------------------------------------------------------

/// The value of a hexadecimal digit character.
pub open spec fn hex_value(c: char) -> Option<nat> {
    if '0' <= c && c <= '9' {
        Some((c as int - 48) as nat)
    } else if 'a' <= c && c <= 'f' {
        Some((c as int - 87) as nat)
    } else if 'A' <= c && c <= 'F' {
        Some((c as int - 55) as nat)
    } else {
        None
    }
}

/// The character that a one-letter escape `\x` stands for.
pub open spec fn short_escape(x: char) -> Option<char> {
    if x == '"' {
        Some('"')
    } else if x == '\\' {
        Some('\\')
    } else if x == '/' {
        Some('/')
    } else if x == 'b' {
        Some('\u{8}')
    } else if x == 'f' {
        Some('\u{c}')
    } else if x == 'n' {
        Some('\n')
    } else if x == 'r' {
        Some('\r')
    } else if x == 't' {
        Some('\t')
    } else {
        None
    }
}

/// The code point written by the four hex digits of `t[2..6]` in a
/// `\uXXXX` escape, when they are hex digits and name a character outside
/// the surrogate range.
pub open spec fn unicode_escape(t: Seq<char>) -> Option<nat>
    recommends
        t.len() >= 6,
{
    match (hex_value(t[2]), hex_value(t[3]), hex_value(t[4]), hex_value(t[5])) {
        (Some(a), Some(b), Some(c), Some(d)) => {
            let v = a * 4096 + b * 256 + c * 16 + d;
            if v < 0xd800 || 0xe000 <= v {
                Some(v)
            } else {
                None
            }
        },
        _ => None,
    }
}

/// Decodes the contents of a JSON string literal (RFC 8259): `None` when
/// they hold a bare `"` (which would end the literal), a raw control
/// character, or a malformed escape.
pub open spec fn json_unescape(t: Seq<char>) -> Option<Seq<char>>
    decreases t.len(),
{
    if t.len() == 0 {
        Some(Seq::empty())
    } else if t[0] == '"' || (t[0] as int) < 0x20 {
        None
    } else if t[0] == '\\' {
        if t.len() >= 2 && short_escape(t[1]) is Some {
            match json_unescape(t.skip(2)) {
                Some(rest) => Some(seq![short_escape(t[1])->0] + rest),
                None => None,
            }
        } else if t.len() >= 6 && t[1] == 'u' && unicode_escape(t) is Some {
            match json_unescape(t.skip(6)) {
                Some(rest) => Some(seq![(unicode_escape(t)->0) as char] + rest),
                None => None,
            }
        } else {
            None
        }
    } else {
        match json_unescape(t.drop_first()) {
            Some(rest) => Some(seq![t[0]] + rest),
            None => None,
        }
    }
}

/// The string a JSON string literal denotes: quotes around contents that
/// decode.
pub open spec fn json_string_value(lit: Seq<char>) -> Option<Seq<char>> {
    if lit.len() >= 2 && lit[0] == '"' && lit.last() == '"' {
        json_unescape(lit.subrange(1, lit.len() - 1))
    } else {
        None
    }
}

proof fn lemma_unescape_escape_char(c: char, rest: Seq<char>, r: Seq<char>)
    requires
        json_unescape(rest) == Some(r),
    ensures
        json_unescape(json_escape_char(c) + rest) == Some(seq![c] + r),
{
    let t = json_escape_char(c) + rest;
    if c == '"' || c == '\\' || c == '\u{8}' || c == '\t' || c == '\n' || c == '\u{c}' || c == '\r' {
        assert(t.skip(2) =~= rest);
    } else if (c as int) < 0x20 {
        let d = c as nat;
        assert(t[2] == '0' && t[3] == '0');
        assert(hex_value(t[4]) == Some(d / 16));
        assert(hex_value(t[5]) == Some(d % 16));
        assert(unicode_escape(t) == Some(d));
        assert(t.skip(6) =~= rest);
        assert((d as char) == c);
    } else {
        assert(t.drop_first() =~= rest);
    }
}

/// The escaped contents decode back to the string.
pub proof fn lemma_unescape_escape(s: Seq<char>)
    ensures
        json_unescape(json_escape(s)) == Some(s),
    decreases s.len(),
{
    if s.len() == 0 {
    } else {
        lemma_unescape_escape(s.drop_first());
        lemma_unescape_escape_char(s[0], json_escape(s.drop_first()), s.drop_first());
        assert(seq![s[0]] + s.drop_first() =~= s);
    }
}

/// The encoded string cannot break out of its literal: the literal is one
/// complete JSON string (no bare quote or control character inside), and it
/// denotes exactly the encoded string.
pub proof fn lemma_json_literal_round_trip(s: Seq<char>)
    ensures
        json_string_value(json_string_literal(s)) == Some(s),
{
    let lit = json_string_literal(s);
    lemma_unescape_escape(s);
    assert(lit.subrange(1, lit.len() - 1) =~= json_escape(s));
}

} // verus!
