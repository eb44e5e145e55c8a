//! The scanner: a line of characters and a cursor that moves forward over it.

use vstd::prelude::*;
use crate::chars::{is_digit, is_identifier_part, is_identifier_start, is_whitespace};
use crate::grammar::{
    exponent_end, fraction_end, has_char, has_exponent_marker, identifier_at, identifier_end,
    lemma_number_end_bounds, lemma_run_end_bounds, lemma_token_end_bounds, list_keyword,
    number_at, number_end, number_is_real, operator_at, operator_end, run_end, tokens_from,
    tokens_of,
    CharClass,
};
use crate::text::{chars_of, string_of};
use crate::token::{Token, TokenType, TokenView};

verus! {

/// The character of a line at a position, if the position is in the line.
pub open spec fn char_at(line: Seq<char>, i: int) -> Option<char> {
    if 0 <= i < line.len() {
        Some(line[i])
    } else {
        None
    }
}

/// What holds while a numeric literal that began at `start` is consumed and
/// the cursor stands at `pos`: the digits from `pos` on end where the part
/// of the literal ends that the two flags say the cursor is in.
spec fn number_progress(
    line: Seq<char>,
    start: int,
    pos: int,
    has_dot: bool,
    has_e: bool,
) -> bool {
    let integer_end = run_end(line, CharClass::Digit, start);
    let mantissa_end = fraction_end(line, integer_end);
    if has_e {
        &&& has_dot == has_char(line, integer_end, '.')
        &&& has_exponent_marker(line, mantissa_end)
        &&& mantissa_end < pos
        &&& run_end(line, CharClass::Digit, pos) == exponent_end(line, mantissa_end)
    } else if has_dot {
        &&& has_char(line, integer_end, '.')
        &&& integer_end < pos
        &&& run_end(line, CharClass::Digit, pos) == mantissa_end
    } else {
        run_end(line, CharClass::Digit, pos) == integer_end
    }
}

/// A scanner for one line. Scanning leaves the cursor in the line or at its
/// end; single steps can take it further, and behind the end of the line
/// there is no character and no token.
pub struct Lexer {
    input: Vec<char>,
    pos: usize,
}

impl Lexer {
    /// The line that is scanned.
    pub closed spec fn line(&self) -> Seq<char> {
        self.input@
    }

    /// The position of the cursor: the number of characters consumed so far.
    pub closed spec fn cursor(&self) -> int {
        self.pos as int
    }

    /// A scanner at the start of the line `input`.
    pub fn new(input: String) -> (lexer: Lexer)
        ensures
            lexer.line() == input@,
            lexer.cursor() == 0,
    {
        Lexer { input: chars_of(input.as_str()), pos: 0 }
    }

    /// The character under the cursor, or `None` at the end of the line and
    /// behind it. Where there is a character, the step over it can be taken.
    pub fn current(&self) -> (c: Option<char>)
        ensures
            c == char_at(self.line(), self.cursor()),
            c is Some ==> self.cursor() < usize::MAX,
    {
        if self.pos < self.input.len() {
            Some(self.input[self.pos])
        } else {
            None
        }
    }

    /// The character `offset` positions after the cursor, or `None` where
    /// the line ends before it.
    pub fn peek(&self, offset: usize) -> (c: Option<char>)
        ensures
            c == char_at(self.line(), self.cursor() + offset),
    {
        if self.pos < self.input.len() && offset < self.input.len() - self.pos {
            Some(self.input[self.pos + offset])
        } else {
            None
        }
    }

    /// Moves the cursor forward by one position, from any position, also
    /// from the end of the line and from behind it.
    pub fn advance(&mut self)
        requires
            old(self).cursor() < usize::MAX,
        ensures
            final(self).line() == old(self).line(),
            final(self).cursor() == old(self).cursor() + 1,
    {
        self.pos += 1;
    }

    /// Consumes the character under the cursor if it is `expected`.
    fn accept(&mut self, expected: char) -> (taken: bool)
        ensures
            final(self).line() == old(self).line(),
            taken == has_char(old(self).line(), old(self).cursor(), expected),
            taken ==> final(self).cursor() == old(self).cursor() + 1,
            !taken ==> final(self).cursor() == old(self).cursor(),
    {
        if self.pos < self.input.len() && self.input[self.pos] == expected {
            self.pos += 1;
            true
        } else {
            false
        }
    }

    /// The token of the given kind whose lexeme is the part of the line from
    /// `start` to the cursor.
    fn token_since(&self, start: usize, token_type: TokenType) -> (token: Token)
        requires
            start <= self.cursor() <= self.line().len(),
        ensures
            token@ == (TokenView {
                lexeme: self.line().subrange(start as int, self.cursor()),
                token_type,
            }),
    {
        Token { lexeme: string_of(&self.input, start, self.pos), token_type }
    }

    /// Moves the cursor over the whitespace that begins under it, to the
    /// first character that is no whitespace or to the end of the line.
    /// Behind the end of the line the cursor stays where it is.
    pub fn skip_whitespace(&mut self)
        ensures
            final(self).line() == old(self).line(),
            final(self).cursor() == run_end(
                old(self).line(),
                CharClass::Whitespace,
                old(self).cursor(),
            ),
    {
        let ghost line = self.line();
        let ghost start = self.cursor();
        loop
            invariant
                self.line() == line,
                run_end(line, CharClass::Whitespace, self.cursor()) == run_end(
                    line,
                    CharClass::Whitespace,
                    start,
                ),
            ensures
                self.line() == line,
                self.cursor() == run_end(line, CharClass::Whitespace, start),
            decreases self.line().len() - self.cursor(),
        {
            match self.current() {
                Some(ch) => {
                    if is_whitespace(ch) {
                        self.advance();
                    } else {
                        break ;
                    }
                },
                None => {
                    break ;
                },
            }
        }
    }

    /// Consumes a numeric literal from the cursor on: digits, at most one
    /// decimal point with the digits after it, and at most one exponent, made
    /// of a marker, at most one sign and digits. The literal is real if it
    /// holds a decimal point or an exponent marker, and an integer otherwise.
    /// The cursor stands in the line or at its end: behind the end there is
    /// no part of the line to take a lexeme from.
    pub fn scan_number(&mut self) -> (token: Token)
        requires
            old(self).cursor() <= old(self).line().len(),
        ensures
            final(self).line() == old(self).line(),
            final(self).cursor() == number_end(old(self).line(), old(self).cursor()),
            token@ == number_at(old(self).line(), old(self).cursor()),
    {
        let ghost line = self.line();
        let start = self.pos;
        let mut has_dot = false;
        let mut has_e = false;
        proof {
            lemma_number_end_bounds(line, start as int);
        }
        loop
            invariant
                self.line() == line,
                start <= self.cursor() <= line.len(),
                number_progress(line, start as int, self.cursor(), has_dot, has_e),
            ensures
                self.line() == line,
                start <= self.cursor() <= line.len(),
                self.cursor() == number_end(line, start as int),
                (has_dot || has_e) == number_is_real(line, start as int),
            decreases self.line().len() - self.cursor(),
        {
            match self.current() {
                Some(ch) => {
                    if is_digit(ch) {
                        self.advance();
                    } else if ch == '.' && !has_dot && !has_e {
                        has_dot = true;
                        self.advance();
                    } else if (ch == 'e' || ch == 'E') && !has_e {
                        has_e = true;
                        self.advance();
                        if !self.accept('+') {
                            self.accept('-');
                        }
                    } else {
                        break ;
                    }
                },
                None => {
                    break ;
                },
            }
        }
        let token_type = if has_dot || has_e {
            TokenType::Real
        } else {
            TokenType::Int
        };
        self.token_since(start, token_type)
    }

    /// Consumes the longest run of alphanumeric characters and underscores
    /// from the cursor on. The word is the keyword if it is exactly `list`,
    /// and an identifier otherwise. The cursor stands in the line or at its
    /// end: behind the end there is no part of the line to take a lexeme
    /// from.
    pub fn scan_identifier(&mut self) -> (token: Token)
        requires
            old(self).cursor() <= old(self).line().len(),
        ensures
            final(self).line() == old(self).line(),
            final(self).cursor() == identifier_end(old(self).line(), old(self).cursor()),
            token@ == identifier_at(old(self).line(), old(self).cursor()),
    {
        let ghost line = self.line();
        let start = self.pos;
        loop
            invariant
                self.line() == line,
                start <= self.cursor() <= line.len(),
                identifier_end(line, self.cursor()) == identifier_end(line, start as int),
            ensures
                self.line() == line,
                start <= self.cursor() <= line.len(),
                self.cursor() == identifier_end(line, start as int),
            decreases self.line().len() - self.cursor(),
        {
            match self.current() {
                Some(ch) => {
                    if is_identifier_part(ch) {
                        self.advance();
                    } else {
                        break ;
                    }
                },
                None => {
                    break ;
                },
            }
        }
        let token_type = if self.is_list_keyword(start) {
            TokenType::List
        } else {
            TokenType::Var
        };
        self.token_since(start, token_type)
    }

    /// Consumes the operator, punctuation mark or unrecognized character
    /// under the cursor. A two-character operator is taken whole where the
    /// next character completes it.
    fn scan_operator(&mut self) -> (token: Token)
        requires
            old(self).cursor() < old(self).line().len(),
        ensures
            final(self).line() == old(self).line(),
            final(self).cursor() == operator_end(old(self).line(), old(self).cursor()),
            token@ == operator_at(old(self).line(), old(self).cursor()),
    {
        let start = self.pos;
        let ch = self.input[self.pos];
        assert(self.pos < self.input.len());
        self.advance();
        let token_type = match ch {
            '+' => TokenType::Plus,
            '-' => TokenType::Minus,
            '*' => TokenType::Mult,
            '/' => {
                if self.accept('/') {
                    TokenType::IntDiv
                } else {
                    TokenType::Div
                }
            },
            '^' => TokenType::Pow,
            '>' => {
                if self.accept('=') {
                    TokenType::Gte
                } else {
                    TokenType::Gt
                }
            },
            '<' => {
                if self.accept('=') {
                    TokenType::Lte
                } else {
                    TokenType::Lt
                }
            },
            '=' => {
                if self.accept('=') {
                    TokenType::Eq
                } else {
                    TokenType::Assign
                }
            },
            '!' => {
                if self.accept('=') {
                    TokenType::Neq
                } else {
                    TokenType::Unrecognized
                }
            },
            '(' => TokenType::LParen,
            ')' => TokenType::RParen,
            '[' => TokenType::LBracket,
            ']' => TokenType::RBracket,
            _ => TokenType::Unrecognized,
        };
        self.token_since(start, token_type)
    }

    /// Scans the rest of the line: the tokens from the cursor to the end of
    /// the line, in order. Whitespace between them gives no token, and a
    /// character that no rule recognizes gives a token of its own. The
    /// cursor ends at the end of the line; behind the end of the line there
    /// are no tokens and the cursor stays where it is.
    pub fn scan_tokens(&mut self) -> (tokens: Vec<Token>)
        ensures
            final(self).line() == old(self).line(),
            old(self).cursor() <= old(self).line().len() ==> final(self).cursor() == old(
                self,
            ).line().len(),
            old(self).cursor() > old(self).line().len() ==> final(self).cursor() == old(
                self,
            ).cursor(),
            tokens.deep_view() == tokens_from(old(self).line(), old(self).cursor()),
    {
        let ghost line = self.line();
        let ghost start = self.cursor();
        let mut tokens: Vec<Token> = Vec::new();
        loop
            invariant
                self.line() == line,
                0 <= start,
                start <= line.len() ==> self.cursor() <= line.len(),
                start > line.len() ==> self.cursor() == start,
                tokens.deep_view() + tokens_from(line, self.cursor()) == tokens_from(
                    line,
                    start,
                ),
            ensures
                self.line() == line,
                start <= line.len() ==> self.cursor() == line.len(),
                start > line.len() ==> self.cursor() == start,
                tokens.deep_view() == tokens_from(line, start),
            decreases line.len() - self.cursor(),
        {
            let ghost here = self.cursor();
            match self.current() {
                Some(ch) => {
                    if is_whitespace(ch) {
                        self.skip_whitespace();
                        proof {
                            lemma_run_end_bounds(line, CharClass::Whitespace, here + 1);
                        }
                    } else {
                        let token = if is_digit(ch) {
                            self.scan_number()
                        } else if is_identifier_start(ch) {
                            self.scan_identifier()
                        } else {
                            self.scan_operator()
                        };
                        tokens.push(token);
                        proof {
                            lemma_token_end_bounds(line, here);
                        }
                    }
                },
                None => {
                    break ;
                },
            }
        }
        tokens
    }

    /// Whether the part of the line from `start` to the cursor is the
    /// reserved word.
    fn is_list_keyword(&self, start: usize) -> (b: bool)
        requires
            start <= self.cursor() <= self.line().len(),
        ensures
            b == (self.line().subrange(start as int, self.cursor()) == list_keyword()),
    {
        let ghost word = self.line().subrange(start as int, self.cursor());
        let ghost keyword = list_keyword();
        assert(keyword.len() == 4 && keyword[0] == 'l' && keyword[1] == 'i' && keyword[2] == 's'
            && keyword[3] == 't');
        if self.pos - start == 4 {
            let b = self.input[start] == 'l' && self.input[start + 1] == 'i' && self.input[start
                + 2] == 's' && self.input[start + 3] == 't';
            assert(b ==> word =~= keyword);
            b
        } else {
            false
        }
    }
}

/// Scans a line: its tokens, in order. Every line has a token sequence;
/// the empty line has the empty one.
pub fn scan(line: &str) -> (tokens: Vec<Token>)
    ensures
        tokens.deep_view() == tokens_of(line@),
{
    let mut lexer = Lexer { input: chars_of(line), pos: 0 };
    lexer.scan_tokens()
}

} // verus!
