//! The JSON bodies that the service answers with.
use vstd::prelude::*;
use crate::decimal::{decimal, decimal_string};
use crate::token::{is_ascii_alphanumeric, is_session_token};

verus! {

/// Whether a JSON string literal holds `c` as it is: only the quote, the
/// backslash and the control characters below U+0020 are escaped.
pub open spec fn json_plain_char(c: char) -> bool {
    &&& c != '"'
    &&& c != '\\'
    &&& (c as u32) >= 0x20
}

/// The lower-case hexadecimal digit of `d` (for `d < 16`).
pub open spec fn hex_digit(d: nat) -> char {
    if d < 10 {
        (d + 48) as char
    } else {
        (d + 87) as char
    }
}

/// How one character is written inside a JSON string literal: the short
/// escapes for the quote, the backslash, backspace, tab, line feed, form
/// feed and carriage return; `\u00XX` with lower-case hex for the other
/// control characters; every other character as it is.
pub open spec fn json_escape_char(c: char) -> Seq<char> {
    if c == '"' {
        seq!['\\', '"']
    } else if c == '\\' {
        seq!['\\', '\\']
    } else if c == '\u{8}' {
        seq!['\\', 'b']
    } else if c == '\t' {
        seq!['\\', 't']
    } else if c == '\n' {
        seq!['\\', 'n']
    } else if c == '\u{c}' {
        seq!['\\', 'f']
    } else if c == '\r' {
        seq!['\\', 'r']
    } else if (c as u32) < 0x20 {
        seq!['\\', 'u', '0', '0', hex_digit((c as nat) / 16), hex_digit((c as nat) % 16)]
    } else {
        seq![c]
    }
}

/// The characters of `text`, each written as `json_escape_char` writes it.
pub open spec fn json_escaped(text: Seq<char>) -> Seq<char>
    decreases text.len(),
{
    if text.len() == 0 {
        Seq::empty()
    } else {
        json_escaped(text.drop_last()) + json_escape_char(text.last())
    }
}

/// The JSON string literal of `text`, quotes included.
pub open spec fn json_string(text: Seq<char>) -> Seq<char> {
    seq!['"'] + json_escaped(text) + seq!['"']
}

/// `serde_json::to_string` on a string. serde_json writes the opening
/// quote, each character by its escape table (`ESCAPE` and
/// `write_char_escape` in its ser.rs), and the closing quote: `json_string`
/// of the text. Writing a string into a `Vec` cannot fail, so the error of
/// the call never comes.
#[verifier::external_body]
fn quote_json(text: &str) -> (q: String)
    ensures
        q@ == json_string(text@),
{
    serde_json::to_string(text).unwrap()
}

/// A text of plain characters is written into a JSON string literal as it
/// is.
pub proof fn lemma_plain_text_needs_no_escape(text: Seq<char>)
    requires
        forall|i: int| 0 <= i < text.len() ==> json_plain_char(#[trigger] text[i]),
    ensures
        json_escaped(text) == text,
    decreases text.len(),
{
    if text.len() > 0 {
        let init = text.drop_last();
        assert forall|i: int| 0 <= i < init.len() implies json_plain_char(#[trigger] init[i]) by {
            assert(init[i] == text[i]);
        }
        lemma_plain_text_needs_no_escape(init);
        assert(json_plain_char(text[text.len() - 1]));
        assert(json_escape_char(text.last()) == seq![text.last()]);
        assert(text =~= init.push(text.last()));
        assert(init + seq![text.last()] =~= init.push(text.last()));
    }
}

/// A session token needs no escape in JSON, so its string literal is the
/// token between two quotes.
pub proof fn lemma_session_token_literal(token: Seq<char>)
    requires
        is_session_token(token),
    ensures
        json_string(token) == seq!['"'] + token + seq!['"'],
{
    assert forall|i: int| 0 <= i < token.len() implies json_plain_char(#[trigger] token[i]) by {
        assert(is_ascii_alphanumeric(token[i]));
    }
    lemma_plain_text_needs_no_escape(token);
}

/// The body that answers a verified code: the user's id and session token
/// as the JSON object `{"id": ..., "token": ...}`.
pub fn code_verified_response(id: u32, token: &str) -> (r: String)
    ensures
        r@ == "{\"id\":"@ + decimal(id as nat) + ",\"token\":"@ + json_string(token@) + "}"@,
{
    let digits = decimal_string(id);
    let quoted = quote_json(token);
    let mut r = String::from_str("{\"id\":");
    r.append(digits.as_str());
    r.append(",\"token\":");
    r.append(quoted.as_str());
    r.append("}");
    r
}

/// The body that answers an authenticated token: the user's id as the JSON
/// object `{"id": ...}`.
pub fn id_response(id: u32) -> (r: String)
    ensures
        r@ == "{\"id\":"@ + decimal(id as nat) + "}"@,
{
    let digits = decimal_string(id);
    let mut r = String::from_str("{\"id\":");
    r.append(digits.as_str());
    r.append("}");
    r
}

} // verus!
