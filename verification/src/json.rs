//! The wire form of text: a JSON string.

use crate::common::field_view;
use vstd::prelude::*;

verus! {

/// A hexadecimal digit in lower case.
pub open spec fn hex_text(digit: int) -> Seq<char> {
    if digit == 0 {
        "0"@
    } else if digit == 1 {
        "1"@
    } else if digit == 2 {
        "2"@
    } else if digit == 3 {
        "3"@
    } else if digit == 4 {
        "4"@
    } else if digit == 5 {
        "5"@
    } else if digit == 6 {
        "6"@
    } else if digit == 7 {
        "7"@
    } else if digit == 8 {
        "8"@
    } else if digit == 9 {
        "9"@
    } else if digit == 10 {
        "a"@
    } else if digit == 11 {
        "b"@
    } else if digit == 12 {
        "c"@
    } else if digit == 13 {
        "d"@
    } else if digit == 14 {
        "e"@
    } else {
        "f"@
    }
}

/// How one character stands inside a JSON string: the quote and the backslash
/// behind a backslash, the control characters by their short names or by
/// their number, every other character as it is.
pub open spec fn escaped_char(c: char) -> Seq<char> {
    if c == '"' {
        "\\\""@
    } else if c == '\\' {
        "\\\\"@
    } else if c == '\n' {
        "\\n"@
    } else if c == '\r' {
        "\\r"@
    } else if c == '\t' {
        "\\t"@
    } else if (c as int) < 32 {
        "\\u00"@ + hex_text(c as int / 16) + hex_text(c as int % 16)
    } else {
        seq![c]
    }
}

/// The first `upto` characters of a text as they stand inside a JSON string.
pub open spec fn escaped_upto(text: Seq<char>, upto: int) -> Seq<char>
    decreases upto,
{
    if upto <= 0 {
        Seq::empty()
    } else {
        escaped_upto(text, upto - 1) + escaped_char(text[upto - 1])
    }
}

/// A text as it stands inside a JSON string, without the quotes around it.
pub open spec fn escaped(text: Seq<char>) -> Seq<char> {
    escaped_upto(text, text.len() as int)
}

/// An optional text as a JSON value: the text in quotes, or `null` where it
/// is absent.
pub open spec fn optional_text(value: Option<Seq<char>>) -> Seq<char> {
    match value {
        Some(text) => "\""@ + escaped(text) + "\""@,
        None => "null"@,
    }
}

/// A hexadecimal digit in lower case.
pub fn hex_digit(value: u32) -> (text: &'static str)
    requires
        value < 16,
    ensures
        text@ == hex_text(value as int),
{
    if value == 0 {
        "0"
    } else if value == 1 {
        "1"
    } else if value == 2 {
        "2"
    } else if value == 3 {
        "3"
    } else if value == 4 {
        "4"
    } else if value == 5 {
        "5"
    } else if value == 6 {
        "6"
    } else if value == 7 {
        "7"
    } else if value == 8 {
        "8"
    } else if value == 9 {
        "9"
    } else if value == 10 {
        "a"
    } else if value == 11 {
        "b"
    } else if value == 12 {
        "c"
    } else if value == 13 {
        "d"
    } else if value == 14 {
        "e"
    } else {
        "f"
    }
}

/// Writes a text as it stands inside a JSON string, without the quotes
/// around it.
pub fn escape(text: &str) -> (out: String)
    ensures
        out@ == escaped(text@),
{
    let len = text.unicode_len();
    let mut out = String::new();
    let mut i: usize = 0;
    while i < len
        invariant
            len == text@.len(),
            i <= len,
            out@ == escaped_upto(text@, i as int),
        decreases len - i,
    {
        let c = text.get_char(i);
        if c == '"' {
            out.append("\\\"");
        } else if c == '\\' {
            out.append("\\\\");
        } else if c == '\n' {
            out.append("\\n");
        } else if c == '\r' {
            out.append("\\r");
        } else if c == '\t' {
            out.append("\\t");
        } else if (c as u32) < 32 {
            let code: u32 = c as u32;
            out.append("\\u00");
            out.append(hex_digit(code / 16));
            out.append(hex_digit(code % 16));
        } else {
            out.append(text.substring_char(i, i + 1));
            assert(text@.subrange(i as int, i + 1) =~= seq![c]);
        }
        i += 1;
    }
    out
}

/// Writes an optional text as a JSON value: the text in quotes, or `null`
/// where it is absent.
pub fn optional_to_json(value: &Option<String>) -> (out: String)
    ensures
        out@ == optional_text(field_view(value)),
{
    match value {
        Some(text) => {
            let mut out = "\"".to_owned();
            out.append(escape(text.as_str()).as_str());
            out.append("\"");
            out
        },
        None => "null".to_owned(),
    }
}

} // verus!
