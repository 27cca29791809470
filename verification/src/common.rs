//! Helpers on text that the whole library shares.

use vstd::prelude::*;

verus! {

/// A field is blank where it is absent or present with no characters.
pub open spec fn blank(value: Option<Seq<char>>) -> bool {
    match value {
        None => true,
        Some(text) => text.len() == 0,
    }
}

/// The view of an optional text field.
pub open spec fn field_view(value: &Option<String>) -> Option<Seq<char>> {
    match value {
        None => None,
        Some(text) => Some(text@),
    }
}

/// Whether an optional text field is absent or empty.
pub fn is_blank(value: &Option<String>) -> (b: bool)
    ensures
        b == blank(field_view(value)),
{
    match value {
        None => true,
        Some(text) => text.as_str().is_empty(),
    }
}

/// The character of a decimal digit.
pub open spec fn digit_text(digit: int) -> Seq<char> {
    if digit == 0 {
        "0"@
    } else if digit == 1 {
        "1"@
    } else if digit == 2 {
        "2"@
    } else if digit == 3 {
        "3"@
    } else if digit == 4 {
        "4"@
    } else if digit == 5 {
        "5"@
    } else if digit == 6 {
        "6"@
    } else if digit == 7 {
        "7"@
    } else if digit == 8 {
        "8"@
    } else {
        "9"@
    }
}

/// A number below 256 in decimal digits, without leading zeros.
pub open spec fn decimal_text(number: u8) -> Seq<char> {
    if number < 10 {
        digit_text(number as int)
    } else if number < 100 {
        digit_text(number as int / 10) + digit_text(number as int % 10)
    } else {
        digit_text(number as int / 100) + digit_text((number as int / 10) % 10) + digit_text(
            number as int % 10,
        )
    }
}

/// The character of a decimal digit.
pub fn digit(value: u8) -> (text: &'static str)
    requires
        value < 10,
    ensures
        text@ == digit_text(value as int),
{
    if value == 0 {
        "0"
    } else if value == 1 {
        "1"
    } else if value == 2 {
        "2"
    } else if value == 3 {
        "3"
    } else if value == 4 {
        "4"
    } else if value == 5 {
        "5"
    } else if value == 6 {
        "6"
    } else if value == 7 {
        "7"
    } else if value == 8 {
        "8"
    } else {
        "9"
    }
}

/// Writes a number below 256 in decimal digits, without leading zeros.
pub fn decimal(number: u8) -> (text: String)
    ensures
        text@ == decimal_text(number),
{
    if number < 10 {
        digit(number).to_owned()
    } else if number < 100 {
        let mut text = digit(number / 10).to_owned();
        text.append(digit(number % 10));
        text
    } else {
        let mut text = digit(number / 100).to_owned();
        text.append(digit((number / 10) % 10));
        text.append(digit(number % 10));
        text
    }
}

/// Calls `str::eq`: two strings are equal where they hold the same characters.
#[verifier::external_body]
pub(crate) fn str_eq(a: &str, b: &str) -> (same: bool)
    ensures
        same == (a@ == b@),
{
    a == b
}

} // verus!
