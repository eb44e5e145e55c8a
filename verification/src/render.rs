//! The trace: the text that shows the tokens of each line.
//!
//! A token is shown as its lexeme, a slash and the display name of its kind.
//! The tokens of a line are separated by one space, and the lines of a text
//! by one line feed. A line without tokens is shown as an empty line.

use vstd::prelude::*;
use vstd::string::StringExecFns;
use crate::grammar::tokens_of;
use crate::lexer::scan;
use crate::text::{lines_of, split_lines};
use crate::token::{Token, TokenView};

verus! {

/// The parts in order, with the separator between each two neighbours.
pub open spec fn joined(parts: Seq<Seq<char>>, separator: char) -> Seq<char>
    decreases parts.len(),
{
    if parts.len() == 0 {
        Seq::empty()
    } else if parts.len() == 1 {
        parts[0]
    } else {
        joined(parts.drop_last(), separator).push(separator) + parts.last()
    }
}

/// The text of one token: lexeme, slash, display name.
pub open spec fn token_text(token: TokenView) -> Seq<char> {
    token.lexeme.push('/') + token.token_type.display_name()
}

/// The texts of the tokens, in order.
pub open spec fn token_texts(tokens: Seq<TokenView>) -> Seq<Seq<char>> {
    tokens.map_values(|token: TokenView| token_text(token))
}

/// The text of the tokens of one line, separated by single spaces.
pub open spec fn line_text(tokens: Seq<TokenView>) -> Seq<char> {
    joined(token_texts(tokens), ' ')
}

/// The texts of the lines, in order: for each line the text of its tokens.
pub open spec fn line_texts(lines: Seq<Seq<char>>) -> Seq<Seq<char>> {
    lines.map_values(|line: Seq<char>| line_text(tokens_of(line)))
}

/// The trace of a sequence of lines: the text of the tokens of each line,
/// the lines separated by line feeds.
pub open spec fn trace_text(lines: Seq<Seq<char>>) -> Seq<char> {
    joined(line_texts(lines), '\n')
}

/// Joins the parts with the separator between each two neighbours.
pub fn join(parts: &Vec<String>, separator: char) -> (text: String)
    ensures
        text@ == joined(parts.deep_view(), separator),
{
    let mut text = String::new();
    let mut i: usize = 0;
    while i < parts.len()
        invariant
            i <= parts.len(),
            text@ == joined(parts.deep_view().take(i as int), separator),
        decreases parts.len() - i,
    {
        assert(parts.deep_view().take(i + 1).drop_last() =~= parts.deep_view().take(i as int));
        if i > 0 {
            text.push(separator);
        }
        text.append(parts[i].as_str());
        i += 1;
    }
    assert(parts.deep_view().take(i as int) =~= parts.deep_view());
    text
}

/// Renders one token.
pub fn render_token(token: &Token) -> (text: String)
    ensures
        text@ == token_text(token@),
{
    let mut text = String::new();
    text.append(token.lexeme.as_str());
    text.push('/');
    text.append(token.token_type.to_string());
    text
}

/// Renders the tokens of one line.
pub fn render_line(tokens: &Vec<Token>) -> (text: String)
    ensures
        text@ == line_text(tokens.deep_view()),
{
    let mut parts: Vec<String> = Vec::new();
    let mut i: usize = 0;
    while i < tokens.len()
        invariant
            i <= tokens.len(),
            parts.deep_view() == token_texts(tokens.deep_view().take(i as int)),
        decreases tokens.len() - i,
    {
        let ghost before = parts.deep_view();
        let part = render_token(&tokens[i]);
        parts.push(part);
        assert(parts.deep_view() =~= before.push(part@));
        i += 1;
    }
    assert(tokens.deep_view().take(i as int) =~= tokens.deep_view());
    join(&parts, ' ')
}

/// Renders the trace of a sequence of lines: each line is scanned, and its
/// tokens are rendered on a line of their own.
pub fn trace_lines(lines: &Vec<String>) -> (text: String)
    ensures
        text@ == trace_text(lines.deep_view()),
{
    let mut parts: Vec<String> = Vec::new();
    let mut i: usize = 0;
    while i < lines.len()
        invariant
            i <= lines.len(),
            parts.deep_view() == line_texts(lines.deep_view().take(i as int)),
        decreases lines.len() - i,
    {
        let ghost before = parts.deep_view();
        let tokens = scan(lines[i].as_str());
        let part = render_line(&tokens);
        parts.push(part);
        assert(parts.deep_view() =~= before.push(part@));
        i += 1;
    }
    assert(lines.deep_view().take(i as int) =~= lines.deep_view());
    join(&parts, '\n')
}

/// Renders the trace of a text: the text is split into lines, each line is
/// scanned, and its tokens are rendered on a line of their own.
pub fn trace(text: &str) -> (rendered: String)
    ensures
        rendered@ == trace_text(lines_of(text@)),
{
    let lines = split_lines(text);
    trace_lines(&lines)
}

} // verus!
