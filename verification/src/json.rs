//! JSON text, written the way `serde_json` writes it.
use vstd::prelude::*;

use crate::types::hex_digit;

verus! {

/// How `serde_json` writes one character inside a string: quotes and
/// backslashes are escaped, the control characters below U+0020 are written
/// as `\b`, `\t`, `\n`, `\f`, `\r` or `\u00xx` (lowercase hex), and every
/// other character is written as it is.
pub open spec fn json_escaped_char(c: char) -> Seq<char> {
    if c == '"' {
        seq!['\\', '"']
    } else if c == '\\' {
        seq!['\\', '\\']
    } else if c == '\u{8}' {
        seq!['\\', 'b']
    } else if c == '\t' {
        seq!['\\', 't']
    } else if c == '\n' {
        seq!['\\', 'n']
    } else if c == '\u{c}' {
        seq!['\\', 'f']
    } else if c == '\r' {
        seq!['\\', 'r']
    } else if (c as u32) < 0x20 {
        seq!['\\', 'u', '0', '0', hex_digit((c as u32 / 16) as u8), hex_digit((c as u32 % 16) as u8)]
    } else {
        seq![c]
    }
}

/// The characters of a string, each written as `serde_json` writes it.
pub open spec fn json_escaped(s: Seq<char>) -> Seq<char>
    decreases s.len(),
{
    if s.len() == 0 {
        seq![]
    } else {
        json_escaped(s.drop_last()) + json_escaped_char(s.last())
    }
}

/// A JSON string: the escaped characters between double quotes.
pub open spec fn json_quoted(s: Seq<char>) -> Seq<char> {
    seq!['"'] + json_escaped(s) + seq!['"']
}

/// How single characters are written: a quote and a backslash get a
/// backslash before them; backspace, tab, newline, form feed and carriage
/// return become `\b`, `\t`, `\n`, `\f`, `\r`; every other character from
/// U+0020 on is written as it is; the remaining control characters become a
/// six-character `\u00xx` escape.
pub proof fn lemma_json_escaped_chars(c: char)
    ensures
        json_escaped_char('"') == seq!['\\', '"'],
        json_escaped_char('\\') == seq!['\\', '\\'],
        json_escaped_char('\u{8}') == seq!['\\', 'b'],
        json_escaped_char('\t') == seq!['\\', 't'],
        json_escaped_char('\n') == seq!['\\', 'n'],
        json_escaped_char('\u{c}') == seq!['\\', 'f'],
        json_escaped_char('\r') == seq!['\\', 'r'],
        (c as u32) >= 0x20 && c != '"' && c != '\\' ==> json_escaped_char(c) == seq![c],
        (c as u32) < 0x20 && c != '\u{8}' && c != '\t' && c != '\n' && c != '\u{c}' && c != '\r'
            ==> json_escaped_char(c).len() == 6 && json_escaped_char(c).take(4) == seq![
            '\\',
            'u',
            '0',
            '0',
        ],
{
    if (c as u32) < 0x20 && c != '\u{8}' && c != '\t' && c != '\n' && c != '\u{c}' && c != '\r' {
        assert(c != '"' && c != '\\');
        assert(json_escaped_char(c).take(4) =~= seq!['\\', 'u', '0', '0']);
    }
}

/// Escaping works character by character: the escape of two strings put
/// together is their escapes put together, and a one-character string is
/// escaped as that character. A JSON string starts and ends with a quote.
pub proof fn lemma_json_escaped_concat(a: Seq<char>, b: Seq<char>)
    ensures
        json_escaped(a + b) == json_escaped(a) + json_escaped(b),
        forall|c: char| #[trigger] json_escaped(seq![c]) == json_escaped_char(c),
        json_escaped(Seq::<char>::empty()) == Seq::<char>::empty(),
        json_quoted(a).len() >= 2,
        json_quoted(a)[0] == '"',
        json_quoted(a).last() == '"',
    decreases b.len(),
{
    if b.len() == 0 {
        assert(a + b =~= a);
    } else {
        lemma_json_escaped_concat(a, b.drop_last());
        assert((a + b).drop_last() =~= a + b.drop_last());
        assert((a + b).last() == b.last());
    }
    assert forall|c: char| #[trigger] json_escaped(seq![c]) == json_escaped_char(c) by {
        assert(seq![c].drop_last() =~= Seq::<char>::empty());
        assert(seq![c].last() == c);
        assert(json_escaped(Seq::<char>::empty()) =~= Seq::<char>::empty());
        assert(Seq::<char>::empty() + json_escaped_char(c) =~= json_escaped_char(c));
    }
}

/// A string as a JSON string literal (`serde_json::to_string` on a `&str`).
/// Serializing a string cannot fail (it holds no map with non-string keys),
/// so the result is always `Some`.
#[verifier::external_body]
fn serde_quote(s: &str) -> (r: Option<String>)
    ensures
        r is Some,
        r matches Some(t) ==> t@ == json_quoted(s@),
{
    match serde_json::to_string(s) {
        Ok(t) => Some(t),
        Err(_) => None,
    }
}

/// A string as a JSON string literal.
pub fn quote(s: &str) -> (t: String)
    ensures
        t@ == json_quoted(s@),
{
    match serde_quote(s) {
        Some(t) => t,
        None => vstd::pervasive::unreached(),
    }
}

} // verus!
