//! What holds of every line: theorems about the grammar.

use vstd::prelude::*;
use crate::chars::{spec_is_digit, spec_is_identifier_start, spec_is_whitespace};
use crate::grammar::{
    fraction_end, has_char, has_exponent_marker, lemma_number_end_bounds, lemma_run_end_bounds,
    lemma_token_end_bounds, list_keyword, number_at, pair_kind, run_end, single_kind, token_end,
    tokens_from, tokens_of, word_kind, CharClass,
};
use crate::render::line_text;
use crate::token::{TokenType, TokenView};

verus! {

/// The lexemes of the tokens, in order.
pub open spec fn lexemes(tokens: Seq<TokenView>) -> Seq<Seq<char>> {
    tokens.map_values(|token: TokenView| token.lexeme)
}

/// The spans of whitespace that the scan skips from position `i` on: the
/// span before each token, and the span after the last token. A span is empty
/// where no whitespace stands.
pub open spec fn gaps_from(line: Seq<char>, i: int) -> Seq<Seq<char>>
    decreases line.len() - i,
    via gaps_from_decreases
{
    let next = run_end(line, CharClass::Whitespace, i);
    if 0 <= i && next < line.len() {
        seq![line.subrange(i, next)] + gaps_from(line, token_end(line, next))
    } else {
        seq![line.subrange(i, next)]
    }
}

#[via_fn]
proof fn gaps_from_decreases(line: Seq<char>, i: int) {
    let next = run_end(line, CharClass::Whitespace, i);
    if 0 <= i && next < line.len() {
        if i <= line.len() {
            lemma_run_end_bounds(line, CharClass::Whitespace, i);
        }
        lemma_token_end_bounds(line, next);
    }
}

/// The spans of whitespace that the scan of a line skips.
pub open spec fn gaps_of(line: Seq<char>) -> Seq<Seq<char>> {
    gaps_from(line, 0)
}

/// The first gap, the first lexeme, the second gap, the second lexeme and so
/// on, up to the gap after the last lexeme, in one sequence.
pub open spec fn interleaved(gaps: Seq<Seq<char>>, lexemes: Seq<Seq<char>>) -> Seq<char>
    decreases lexemes.len(),
{
    if gaps.len() == 0 {
        Seq::empty()
    } else if lexemes.len() == 0 {
        gaps[0]
    } else {
        gaps[0] + lexemes[0] + interleaved(gaps.drop_first(), lexemes.drop_first())
    }
}

/// Whitespace under the cursor changes nothing in the tokens that follow:
/// the tokens from `i` on are those from the end of the whitespace at `i` on.
pub proof fn lemma_tokens_after_whitespace(line: Seq<char>, i: int)
    requires
        0 <= i <= line.len(),
    ensures
        tokens_from(line, i) == tokens_from(line, run_end(line, CharClass::Whitespace, i)),
{
}

/// From any position on, the lexemes of the tokens and the whitespace
/// skipped before, between and after them make up the rest of the line.
pub proof fn lemma_rest_of_line_is_rebuilt(line: Seq<char>, i: int)
    requires
        0 <= i <= line.len(),
    ensures
        gaps_from(line, i).len() == tokens_from(line, i).len() + 1,
        forall|k: int, j: int|
            0 <= k < gaps_from(line, i).len() && 0 <= j < gaps_from(line, i)[k].len()
                ==> spec_is_whitespace(#[trigger] gaps_from(line, i)[k][j]),
        interleaved(gaps_from(line, i), lexemes(tokens_from(line, i))) == line.subrange(
            i,
            line.len() as int,
        ),
    decreases line.len() - i,
{
    let next = run_end(line, CharClass::Whitespace, i);
    lemma_run_end_bounds(line, CharClass::Whitespace, i);
    lemma_tokens_after_whitespace(line, i);
    if next < line.len() {
        let end = token_end(line, next);
        lemma_token_end_bounds(line, next);
        lemma_rest_of_line_is_rebuilt(line, end);
        assert(gaps_from(line, i).drop_first() =~= gaps_from(line, end));
        assert(lexemes(tokens_from(line, i)).drop_first() =~= lexemes(tokens_from(line, end)));
    }
}

/// The line is rebuilt exactly from the lexemes of its tokens and the
/// whitespace that the scan skipped: there is one span of whitespace before
/// each token and one after the last, each holds only whitespace, and the
/// spans and lexemes in turn are the line.
pub proof fn lemma_line_is_rebuilt(line: Seq<char>)
    ensures
        gaps_of(line).len() == tokens_of(line).len() + 1,
        forall|k: int, j: int|
            0 <= k < gaps_of(line).len() && 0 <= j < gaps_of(line)[k].len()
                ==> spec_is_whitespace(#[trigger] gaps_of(line)[k][j]),
        interleaved(gaps_of(line), lexemes(tokens_of(line))) == line,
{
    lemma_rest_of_line_is_rebuilt(line, 0);
}

/// From any position on, no token has an empty lexeme, and no lexeme begins
/// with whitespace.
pub proof fn lemma_later_lexemes_are_not_empty(line: Seq<char>, i: int, k: int)
    requires
        0 <= i <= line.len(),
        0 <= k < tokens_from(line, i).len(),
    ensures
        tokens_from(line, i)[k].lexeme.len() > 0,
        !spec_is_whitespace(tokens_from(line, i)[k].lexeme[0]),
    decreases line.len() - i,
{
    let next = run_end(line, CharClass::Whitespace, i);
    lemma_run_end_bounds(line, CharClass::Whitespace, i);
    lemma_tokens_after_whitespace(line, i);
    if next < line.len() {
        let end = token_end(line, next);
        lemma_token_end_bounds(line, next);
        if k > 0 {
            lemma_later_lexemes_are_not_empty(line, end, k - 1);
        }
    }
}

/// No token of a line has an empty lexeme, and no lexeme begins with
/// whitespace.
pub proof fn lemma_lexemes_are_not_empty(line: Seq<char>, k: int)
    requires
        0 <= k < tokens_of(line).len(),
    ensures
        tokens_of(line)[k].lexeme.len() > 0,
        !spec_is_whitespace(tokens_of(line)[k].lexeme[0]),
{
    lemma_later_lexemes_are_not_empty(line, 0, k);
}

/// The lexeme holds a decimal point or an exponent marker.
pub open spec fn has_point_or_exponent(lexeme: Seq<char>) -> bool {
    exists|k: int|
        0 <= k < lexeme.len() && (#[trigger] lexeme[k] == '.' || lexeme[k] == 'e' || lexeme[k]
            == 'E')
}

/// A numeric literal is real exactly if its lexeme holds a decimal point or
/// an exponent marker, and an integer otherwise; the lexeme of an integer
/// literal holds decimal digits only.
pub proof fn lemma_number_kind(line: Seq<char>, start: int)
    requires
        0 <= start <= line.len(),
    ensures
        number_at(line, start).token_type == TokenType::Real <==> has_point_or_exponent(
            number_at(line, start).lexeme,
        ),
        number_at(line, start).token_type == TokenType::Int <==> !has_point_or_exponent(
            number_at(line, start).lexeme,
        ),
        number_at(line, start).token_type == TokenType::Int ==> forall|k: int|
            0 <= k < number_at(line, start).lexeme.len() ==> spec_is_digit(
                #[trigger] number_at(line, start).lexeme[k],
            ),
{
    let lexeme = number_at(line, start).lexeme;
    let integer_end = run_end(line, CharClass::Digit, start);
    let mantissa_end = fraction_end(line, integer_end);
    lemma_run_end_bounds(line, CharClass::Digit, start);
    lemma_number_end_bounds(line, start);
    if has_char(line, integer_end, '.') {
        lemma_run_end_bounds(line, CharClass::Digit, integer_end + 1);
        assert(lexeme[integer_end - start] == '.');
    } else if has_exponent_marker(line, mantissa_end) {
        assert(lexeme[mantissa_end - start] == line[mantissa_end]);
    }
}

/// The kind that a lexeme has by what it holds: a lexeme that begins with a
/// decimal digit is a real literal if it holds a decimal point or an exponent
/// marker and an integer literal if not; one that begins with an alphabetic
/// character or an underscore is a word; one that is a two-character
/// operator has that operator's kind; every other has the kind of its first
/// character.
pub open spec fn kind_of(lexeme: Seq<char>) -> TokenType {
    if spec_is_digit(lexeme[0]) {
        if has_point_or_exponent(lexeme) {
            TokenType::Real
        } else {
            TokenType::Int
        }
    } else if spec_is_identifier_start(lexeme[0]) {
        word_kind(lexeme)
    } else if lexeme.len() == 2 && pair_kind(lexeme[0], lexeme[1]) is Some {
        pair_kind(lexeme[0], lexeme[1])->0
    } else {
        single_kind(lexeme[0])
    }
}

/// From any position on, the kind of a token can be read off its lexeme.
pub proof fn lemma_later_kinds(line: Seq<char>, i: int, k: int)
    requires
        0 <= i <= line.len(),
        0 <= k < tokens_from(line, i).len(),
    ensures
        tokens_from(line, i)[k].token_type == kind_of(tokens_from(line, i)[k].lexeme),
    decreases line.len() - i,
{
    let next = run_end(line, CharClass::Whitespace, i);
    lemma_run_end_bounds(line, CharClass::Whitespace, i);
    lemma_tokens_after_whitespace(line, i);
    if next < line.len() {
        let end = token_end(line, next);
        lemma_token_end_bounds(line, next);
        if k > 0 {
            lemma_later_kinds(line, end, k - 1);
        } else {
            lemma_number_kind(line, next);
        }
    }
}

/// The kind of a token can be read off its lexeme. A token is the keyword
/// exactly if its lexeme is the reserved word.
pub proof fn lemma_kind_is_read_off_the_lexeme(line: Seq<char>, k: int)
    requires
        0 <= k < tokens_of(line).len(),
    ensures
        tokens_of(line)[k].token_type == kind_of(tokens_of(line)[k].lexeme),
        tokens_of(line)[k].token_type == TokenType::List <==> tokens_of(line)[k].lexeme
            == list_keyword(),
{
    lemma_later_kinds(line, 0, k);
    assert(list_keyword()[0] == 'l');
}

/// The token that the two characters of a two-character operator give.
pub open spec fn pair_token(first: char, second: char) -> TokenView {
    TokenView { lexeme: seq![first, second], token_type: pair_kind(first, second)->0 }
}

/// Maximal munch: where the two characters at `i` and `i + 1` form an
/// operator together, the scan from `i` on begins with that operator as one
/// token and goes on behind both characters. It never takes the first
/// character as a token of its own.
pub proof fn lemma_pair_is_one_token(line: Seq<char>, i: int)
    requires
        0 <= i,
        i + 1 < line.len(),
        pair_kind(line[i], line[i + 1]) is Some,
    ensures
        tokens_from(line, i) == seq![pair_token(line[i], line[i + 1])] + tokens_from(line, i + 2),
{
    assert(line.subrange(i, i + 2) =~= seq![line[i], line[i + 1]]);
}

/// Maximal munch: a line that is one of the two-character operators and
/// nothing else has exactly one token, that operator.
pub proof fn lemma_pair_alone_is_one_token(first: char, second: char)
    requires
        pair_kind(first, second) is Some,
    ensures
        tokens_of(seq![first, second]) == seq![pair_token(first, second)],
{
    lemma_pair_is_one_token(seq![first, second], 0);
}

/// Scanning is a function of the line: whatever two scans of one line
/// yield, they yield the same tokens.
pub proof fn lemma_scans_agree(line: Seq<char>, first: Seq<TokenView>, second: Seq<TokenView>)
    requires
        first == tokens_of(line),
        second == tokens_of(line),
    ensures
        first == second,
{
}

/// From any position on, there are no tokens exactly if only whitespace
/// follows.
pub proof fn lemma_no_later_tokens(line: Seq<char>, i: int)
    requires
        0 <= i <= line.len(),
    ensures
        tokens_from(line, i).len() == 0 <==> forall|k: int|
            i <= k < line.len() ==> spec_is_whitespace(#[trigger] line[k]),
{
    lemma_run_end_bounds(line, CharClass::Whitespace, i);
    lemma_tokens_after_whitespace(line, i);
}

/// A line without tokens is a line of whitespace only, the empty line among
/// them; and such a line is shown as an empty line.
pub proof fn lemma_blank_line(line: Seq<char>)
    ensures
        tokens_of(line).len() == 0 <==> forall|k: int|
            0 <= k < line.len() ==> spec_is_whitespace(#[trigger] line[k]),
        tokens_of(line).len() == 0 ==> line_text(tokens_of(line)) == Seq::<char>::empty(),
{
    lemma_no_later_tokens(line, 0);
}

} // verus!
