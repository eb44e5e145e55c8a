//! Character classes of the scanner.
//!
//! The decimal digits and the classes of the ASCII characters are decided
//! here. For a character beyond ASCII the standard library is asked for its
//! Unicode properties.

use vstd::prelude::*;

verus! {

/// What `char::is_whitespace` returns for a character: whether it has the
/// Unicode property `White_Space`.
pub uninterp spec fn unicode_white_space(c: char) -> bool;

/// What `char::is_alphabetic` returns for a character: whether it has the
/// Unicode property `Alphabetic`.
pub uninterp spec fn unicode_alphabetic(c: char) -> bool;

/// What `char::is_numeric` returns for a character: whether it is in one of
/// the Unicode general categories for numbers.
pub uninterp spec fn unicode_numeric(c: char) -> bool;

/// The character is in the ASCII range.
pub open spec fn is_ascii(c: char) -> bool {
    c <= '\x7f'
}

/// The character is one of the letters `a` to `z` or `A` to `Z`.
pub open spec fn is_ascii_letter(c: char) -> bool {
    ('a' <= c <= 'z') || ('A' <= c <= 'Z')
}

/// The character is one of the decimal digits `0` to `9`.
pub open spec fn spec_is_digit(c: char) -> bool {
    '0' <= c <= '9'
}

/// The character is whitespace: a space, a tab, a line feed, a vertical tab,
/// a form feed or a carriage return, or a character beyond ASCII that
/// Unicode counts as white space.
pub open spec fn spec_is_whitespace(c: char) -> bool {
    if is_ascii(c) {
        c == ' ' || ('\t' <= c <= '\r')
    } else {
        unicode_white_space(c)
    }
}

/// The character is alphabetic: an ASCII letter, or a character beyond ASCII
/// that Unicode counts as alphabetic.
pub open spec fn spec_is_alphabetic(c: char) -> bool {
    if is_ascii(c) {
        is_ascii_letter(c)
    } else {
        unicode_alphabetic(c)
    }
}

/// The character is alphanumeric: an ASCII letter or decimal digit, or a
/// character beyond ASCII that Unicode counts as alphabetic or as numeric.
pub open spec fn spec_is_alphanumeric(c: char) -> bool {
    if is_ascii(c) {
        is_ascii_letter(c) || spec_is_digit(c)
    } else {
        unicode_alphabetic(c) || unicode_numeric(c)
    }
}

/// The character can begin an identifier: it is alphabetic or an underscore.
pub open spec fn spec_is_identifier_start(c: char) -> bool {
    spec_is_alphabetic(c) || c == '_'
}

/// The character can continue an identifier: it is alphanumeric or an
/// underscore.
pub open spec fn spec_is_identifier_part(c: char) -> bool {
    spec_is_alphanumeric(c) || c == '_'
}

/// Calls `char::is_whitespace`, which reports whether a character has the
/// Unicode property `White_Space`. Taken on trust: the answer depends on the
/// character alone, and `unicode_white_space` stands for it.
#[verifier::external_body]
fn char_is_whitespace(c: char) -> (b: bool)
    ensures
        b == unicode_white_space(c),
{
    c.is_whitespace()
}

/// Calls `char::is_alphabetic`, which reports whether a character has the
/// Unicode property `Alphabetic`. Taken on trust: the answer depends on the
/// character alone, and `unicode_alphabetic` stands for it.
#[verifier::external_body]
fn char_is_alphabetic(c: char) -> (b: bool)
    ensures
        b == unicode_alphabetic(c),
{
    c.is_alphabetic()
}

/// Calls `char::is_alphanumeric`. Taken on trust, from its documentation:
/// it returns `true` exactly for the characters for which
/// `char::is_alphabetic` or `char::is_numeric` does.
#[verifier::external_body]
fn char_is_alphanumeric(c: char) -> (b: bool)
    ensures
        b == (unicode_alphabetic(c) || unicode_numeric(c)),
{
    c.is_alphanumeric()
}

/// Decides whether a character is one of the decimal digits `0` to `9`.
#[verifier::when_used_as_spec(spec_is_digit)]
pub fn is_digit(c: char) -> (b: bool)
    ensures
        b == spec_is_digit(c),
{
    '0' <= c && c <= '9'
}

/// Decides whether a character is whitespace.
#[verifier::when_used_as_spec(spec_is_whitespace)]
pub fn is_whitespace(c: char) -> (b: bool)
    ensures
        b == spec_is_whitespace(c),
{
    if c <= '\x7f' {
        c == ' ' || ('\t' <= c && c <= '\r')
    } else {
        char_is_whitespace(c)
    }
}

/// Decides whether a character is alphabetic.
#[verifier::when_used_as_spec(spec_is_alphabetic)]
pub fn is_alphabetic(c: char) -> (b: bool)
    ensures
        b == spec_is_alphabetic(c),
{
    if c <= '\x7f' {
        ('a' <= c && c <= 'z') || ('A' <= c && c <= 'Z')
    } else {
        char_is_alphabetic(c)
    }
}

/// Decides whether a character is alphanumeric.
#[verifier::when_used_as_spec(spec_is_alphanumeric)]
pub fn is_alphanumeric(c: char) -> (b: bool)
    ensures
        b == spec_is_alphanumeric(c),
{
    if c <= '\x7f' {
        ('a' <= c && c <= 'z') || ('A' <= c && c <= 'Z') || ('0' <= c && c <= '9')
    } else {
        char_is_alphanumeric(c)
    }
}

/// Decides whether a character can begin an identifier.
#[verifier::when_used_as_spec(spec_is_identifier_start)]
pub fn is_identifier_start(c: char) -> (b: bool)
    ensures
        b == spec_is_identifier_start(c),
{
    c == '_' || is_alphabetic(c)
}

/// Decides whether a character can continue an identifier.
#[verifier::when_used_as_spec(spec_is_identifier_part)]
pub fn is_identifier_part(c: char) -> (b: bool)
    ensures
        b == spec_is_identifier_part(c),
{
    c == '_' || is_alphanumeric(c)
}

} // verus!
