//! The lexical grammar, as functions on a line of characters.
//!
//! A position is an index into the line. Every function here is total: it
//! gives a value for every line and every position, also past the end.

use vstd::prelude::*;
use crate::chars::{
    spec_is_digit, spec_is_identifier_part, spec_is_identifier_start, spec_is_whitespace,
};
use crate::token::{TokenType, TokenView};

verus! {

/// The classes of characters of which the scanner consumes whole runs.
pub enum CharClass {
    /// Whitespace.
    Whitespace,
    /// The decimal digits.
    Digit,
    /// The characters that can continue an identifier.
    IdentifierPart,
}

impl CharClass {
    /// Whether a character belongs to this class.
    pub open spec fn contains(self, c: char) -> bool {
        match self {
            CharClass::Whitespace => spec_is_whitespace(c),
            CharClass::Digit => spec_is_digit(c),
            CharClass::IdentifierPart => spec_is_identifier_part(c),
        }
    }
}

/// The position at which the longest run of characters of `class` that
/// begins at `start` ends: the first position from `start` on that is the end
/// of the line or holds a character outside the class.
pub open spec fn run_end(line: Seq<char>, class: CharClass, start: int) -> int
    decreases line.len() - start,
{
    if 0 <= start < line.len() && class.contains(line[start]) {
        run_end(line, class, start + 1)
    } else {
        start
    }
}

/// The line holds the character `c` at position `i`.
pub open spec fn has_char(line: Seq<char>, i: int, c: char) -> bool {
    0 <= i < line.len() && line[i] == c
}

/// The line holds an exponent marker, `e` or `E`, at position `i`.
pub open spec fn has_exponent_marker(line: Seq<char>, i: int) -> bool {
    has_char(line, i, 'e') || has_char(line, i, 'E')
}

/// The line holds a sign, `+` or `-`, at position `i`.
pub open spec fn has_sign(line: Seq<char>, i: int) -> bool {
    has_char(line, i, '+') || has_char(line, i, '-')
}

/// Where the fraction of a numeric literal ends whose integer part ends at
/// `i`: after a decimal point at `i` and the digits that follow it, or at `i`
/// where there is no decimal point.
pub open spec fn fraction_end(line: Seq<char>, i: int) -> int {
    if has_char(line, i, '.') {
        run_end(line, CharClass::Digit, i + 1)
    } else {
        i
    }
}

/// Where the exponent of a numeric literal ends whose mantissa ends at `i`:
/// after an exponent marker at `i`, one sign if it follows the marker, and
/// the digits after that, of which there may be none; or at `i` where there
/// is no exponent marker.
pub open spec fn exponent_end(line: Seq<char>, i: int) -> int {
    if has_exponent_marker(line, i) {
        run_end(line, CharClass::Digit, if has_sign(line, i + 1) { i + 2 } else { i + 1 })
    } else {
        i
    }
}

/// Where the numeric literal that begins at `start` ends: digits, then at
/// most one decimal point with its digits, then at most one exponent.
pub open spec fn number_end(line: Seq<char>, start: int) -> int {
    exponent_end(line, fraction_end(line, run_end(line, CharClass::Digit, start)))
}

/// Whether the numeric literal that begins at `start` holds a decimal point
/// or an exponent marker.
pub open spec fn number_is_real(line: Seq<char>, start: int) -> bool {
    let integer_end = run_end(line, CharClass::Digit, start);
    has_char(line, integer_end, '.') || has_exponent_marker(line, fraction_end(line, integer_end))
}

/// The kind of a numeric literal.
pub open spec fn number_kind(line: Seq<char>, start: int) -> TokenType {
    if number_is_real(line, start) {
        TokenType::Real
    } else {
        TokenType::Int
    }
}

/// The reserved word.
pub open spec fn list_keyword() -> Seq<char> {
    seq!['l', 'i', 's', 't']
}

/// Where the identifier that begins at `start` ends.
pub open spec fn identifier_end(line: Seq<char>, start: int) -> int {
    run_end(line, CharClass::IdentifierPart, start)
}

/// The kind of a word: the keyword kind for the reserved word, the
/// identifier kind for every other.
pub open spec fn word_kind(lexeme: Seq<char>) -> TokenType {
    if lexeme == list_keyword() {
        TokenType::List
    } else {
        TokenType::Var
    }
}

/// The kind of the operator that the two characters form together, if they
/// form one.
pub open spec fn pair_kind(first: char, second: char) -> Option<TokenType> {
    if first == '/' && second == '/' {
        Some(TokenType::IntDiv)
    } else if first == '>' && second == '=' {
        Some(TokenType::Gte)
    } else if first == '<' && second == '=' {
        Some(TokenType::Lte)
    } else if first == '=' && second == '=' {
        Some(TokenType::Eq)
    } else if first == '!' && second == '=' {
        Some(TokenType::Neq)
    } else {
        None
    }
}

/// The kind of a token that is the single character `c`, where `c` is no
/// whitespace and begins neither a number nor an identifier.
pub open spec fn single_kind(c: char) -> TokenType {
    if c == '+' {
        TokenType::Plus
    } else if c == '-' {
        TokenType::Minus
    } else if c == '*' {
        TokenType::Mult
    } else if c == '/' {
        TokenType::Div
    } else if c == '^' {
        TokenType::Pow
    } else if c == '>' {
        TokenType::Gt
    } else if c == '<' {
        TokenType::Lt
    } else if c == '=' {
        TokenType::Assign
    } else if c == '(' {
        TokenType::LParen
    } else if c == ')' {
        TokenType::RParen
    } else if c == '[' {
        TokenType::LBracket
    } else if c == ']' {
        TokenType::RBracket
    } else {
        TokenType::Unrecognized
    }
}

/// The numeric literal that begins at `start`: its lexeme is the part of the
/// line from `start` to the literal's end.
pub open spec fn number_at(line: Seq<char>, start: int) -> TokenView {
    TokenView {
        lexeme: line.subrange(start, number_end(line, start)),
        token_type: number_kind(line, start),
    }
}

/// The word that begins at `start`: its lexeme is the part of the line from
/// `start` to the end of the longest run of identifier characters.
pub open spec fn identifier_at(line: Seq<char>, start: int) -> TokenView {
    TokenView {
        lexeme: line.subrange(start, identifier_end(line, start)),
        token_type: word_kind(line.subrange(start, identifier_end(line, start))),
    }
}

/// Whether the characters at `i` and `i + 1` form a two-character operator.
pub open spec fn has_pair(line: Seq<char>, i: int) -> bool {
    0 <= i && i + 1 < line.len() && pair_kind(line[i], line[i + 1]) is Some
}

/// Where the operator, punctuation mark or unrecognized character at `i`
/// ends: after two characters where they form an operator together, after
/// one character otherwise.
pub open spec fn operator_end(line: Seq<char>, i: int) -> int {
    if has_pair(line, i) {
        i + 2
    } else {
        i + 1
    }
}

/// The kind of the operator, punctuation mark or unrecognized character at
/// `i`. The two-character form comes before the one-character form.
pub open spec fn operator_kind(line: Seq<char>, i: int) -> TokenType {
    if has_pair(line, i) {
        pair_kind(line[i], line[i + 1])->0
    } else {
        single_kind(line[i])
    }
}

/// The operator, punctuation mark or unrecognized character at `i`.
pub open spec fn operator_at(line: Seq<char>, i: int) -> TokenView {
    TokenView {
        lexeme: line.subrange(i, operator_end(line, i)),
        token_type: operator_kind(line, i),
    }
}

/// The token that begins at `i`, for a position `i` in the line that holds
/// no whitespace: a numeric literal where a decimal digit stands at `i`, else
/// a word where an alphabetic character or an underscore stands there, else
/// an operator, a punctuation mark or an unrecognized character.
pub open spec fn token_at(line: Seq<char>, i: int) -> TokenView {
    if spec_is_digit(line[i]) {
        number_at(line, i)
    } else if spec_is_identifier_start(line[i]) {
        identifier_at(line, i)
    } else {
        operator_at(line, i)
    }
}

/// Where the token that begins at `i` ends, for a position `i` in the line
/// that holds no whitespace.
pub open spec fn token_end(line: Seq<char>, i: int) -> int {
    if spec_is_digit(line[i]) {
        number_end(line, i)
    } else if spec_is_identifier_start(line[i]) {
        identifier_end(line, i)
    } else {
        operator_end(line, i)
    }
}

/// The tokens of the part of the line from position `i` on.
pub open spec fn tokens_from(line: Seq<char>, i: int) -> Seq<TokenView>
    decreases line.len() - i,
    via tokens_from_decreases
{
    if !(0 <= i < line.len()) {
        Seq::empty()
    } else if spec_is_whitespace(line[i]) {
        tokens_from(line, run_end(line, CharClass::Whitespace, i))
    } else {
        seq![token_at(line, i)] + tokens_from(line, token_end(line, i))
    }
}

#[via_fn]
proof fn tokens_from_decreases(line: Seq<char>, i: int) {
    if 0 <= i < line.len() {
        if spec_is_whitespace(line[i]) {
            lemma_run_end_bounds(line, CharClass::Whitespace, i + 1);
        } else {
            lemma_token_end_bounds(line, i);
        }
    }
}

/// The tokens of a line.
pub open spec fn tokens_of(line: Seq<char>) -> Seq<TokenView> {
    tokens_from(line, 0)
}

/// A run ends between its start and the end of the line, holds only
/// characters of its class, and cannot be made longer.
pub proof fn lemma_run_end_bounds(line: Seq<char>, class: CharClass, start: int)
    requires
        0 <= start <= line.len(),
    ensures
        start <= run_end(line, class, start) <= line.len(),
        forall|k: int| start <= k < run_end(line, class, start) ==> class.contains(#[trigger] line[k]),
        run_end(line, class, start) < line.len() ==> !class.contains(
            line[run_end(line, class, start)],
        ),
    decreases line.len() - start,
{
    if start < line.len() && class.contains(line[start]) {
        lemma_run_end_bounds(line, class, start + 1);
    }
}

/// The parts of a numeric literal lie in order between its start and the
/// end of the line: the integer part, the fraction, the exponent. A decimal
/// point and an exponent marker lie inside the literal, and a literal that
/// begins with a digit is not empty.
pub proof fn lemma_number_end_bounds(line: Seq<char>, start: int)
    requires
        0 <= start <= line.len(),
    ensures
        start <= run_end(line, CharClass::Digit, start) <= fraction_end(
            line,
            run_end(line, CharClass::Digit, start),
        ) <= number_end(line, start) <= line.len(),
        has_char(line, run_end(line, CharClass::Digit, start), '.') ==> run_end(
            line,
            CharClass::Digit,
            start,
        ) < fraction_end(line, run_end(line, CharClass::Digit, start)),
        has_exponent_marker(line, fraction_end(line, run_end(line, CharClass::Digit, start)))
            ==> fraction_end(line, run_end(line, CharClass::Digit, start)) < number_end(
            line,
            start,
        ),
        start < line.len() && spec_is_digit(line[start]) ==> start < number_end(line, start),
{
    let a = run_end(line, CharClass::Digit, start);
    lemma_run_end_bounds(line, CharClass::Digit, start);
    if has_char(line, a, '.') {
        lemma_run_end_bounds(line, CharClass::Digit, a + 1);
    }
    let b = fraction_end(line, a);
    if has_exponent_marker(line, b) {
        if has_sign(line, b + 1) {
            lemma_run_end_bounds(line, CharClass::Digit, b + 2);
        } else {
            lemma_run_end_bounds(line, CharClass::Digit, b + 1);
        }
    }
}

/// A token is not empty and ends within the line.
pub proof fn lemma_token_end_bounds(line: Seq<char>, i: int)
    requires
        0 <= i < line.len(),
    ensures
        i < token_end(line, i) <= line.len(),
{
    if spec_is_digit(line[i]) {
        lemma_number_end_bounds(line, i);
    } else if spec_is_identifier_start(line[i]) {
        lemma_run_end_bounds(line, CharClass::IdentifierPart, i + 1);
    }
}

} // verus!
