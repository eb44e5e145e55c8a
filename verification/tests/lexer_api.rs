use line_lexer::lexer::Lexer;
use line_lexer::token::{Token, TokenType};

fn token(lexeme: &str, token_type: TokenType) -> Token {
    Token { lexeme: lexeme.to_string(), token_type }
}

#[test]
fn new_lexer_stands_at_the_first_character() {
    let lexer = Lexer::new("ab".to_string());
    assert_eq!(lexer.current(), Some('a'));
    assert_eq!(lexer.peek(0), Some('a'));
    assert_eq!(lexer.peek(1), Some('b'));
    assert_eq!(lexer.peek(2), None);
}

#[test]
fn lexer_on_the_empty_line() {
    let mut lexer = Lexer::new(String::new());
    assert_eq!(lexer.current(), None);
    assert_eq!(lexer.peek(0), None);
    assert_eq!(lexer.peek(usize::MAX), None);
    lexer.skip_whitespace();
    assert_eq!(lexer.current(), None);
    assert_eq!(lexer.scan_tokens(), vec![]);
}

#[test]
fn peek_far_beyond_the_line() {
    let mut lexer = Lexer::new("abc".to_string());
    lexer.advance();
    assert_eq!(lexer.peek(1), Some('c'));
    assert_eq!(lexer.peek(2), None);
    assert_eq!(lexer.peek(usize::MAX), None);
    assert_eq!(lexer.peek(usize::MAX - 1), None);
}

#[test]
fn advance_moves_by_one_character() {
    let mut lexer = Lexer::new("a\u{e9}c".to_string());
    assert_eq!(lexer.current(), Some('a'));
    lexer.advance();
    assert_eq!(lexer.current(), Some('\u{e9}'));
    lexer.advance();
    assert_eq!(lexer.current(), Some('c'));
    lexer.advance();
    assert_eq!(lexer.current(), None);
}

#[test]
fn skip_whitespace_stops_at_the_first_other_character() {
    let mut lexer = Lexer::new(" \t\u{a0} x y".to_string());
    lexer.skip_whitespace();
    assert_eq!(lexer.current(), Some('x'));
    lexer.skip_whitespace();
    assert_eq!(lexer.current(), Some('x'));
    lexer.advance();
    lexer.skip_whitespace();
    assert_eq!(lexer.current(), Some('y'));
    lexer.advance();
    lexer.skip_whitespace();
    assert_eq!(lexer.current(), None);
}

#[test]
fn scan_number_consumes_one_literal() {
    let mut lexer = Lexer::new("12.5e-3.4".to_string());
    assert_eq!(lexer.scan_number(), token("12.5e-3", TokenType::Real));
    assert_eq!(lexer.current(), Some('.'));
    let mut lexer = Lexer::new("42)".to_string());
    assert_eq!(lexer.scan_number(), token("42", TokenType::Int));
    assert_eq!(lexer.current(), Some(')'));
}

#[test]
fn scan_number_where_no_digit_stands() {
    let mut lexer = Lexer::new("abc".to_string());
    assert_eq!(lexer.scan_number(), token("", TokenType::Int));
    assert_eq!(lexer.current(), Some('a'));
    let mut lexer = Lexer::new(".5".to_string());
    assert_eq!(lexer.scan_number(), token(".5", TokenType::Real));
    assert_eq!(lexer.current(), None);
    let mut lexer = Lexer::new("e+x".to_string());
    assert_eq!(lexer.scan_number(), token("e+", TokenType::Real));
    assert_eq!(lexer.current(), Some('x'));
    let mut lexer = Lexer::new(String::new());
    assert_eq!(lexer.scan_number(), token("", TokenType::Int));
}

#[test]
fn scan_identifier_consumes_one_word() {
    let mut lexer = Lexer::new("list_1+x".to_string());
    assert_eq!(lexer.scan_identifier(), token("list_1", TokenType::Var));
    assert_eq!(lexer.current(), Some('+'));
    let mut lexer = Lexer::new("list+x".to_string());
    assert_eq!(lexer.scan_identifier(), token("list", TokenType::List));
    assert_eq!(lexer.current(), Some('+'));
}

#[test]
fn scan_identifier_where_no_letter_stands() {
    let mut lexer = Lexer::new("1a+".to_string());
    assert_eq!(lexer.scan_identifier(), token("1a", TokenType::Var));
    let mut lexer = Lexer::new("+".to_string());
    assert_eq!(lexer.scan_identifier(), token("", TokenType::Var));
    assert_eq!(lexer.current(), Some('+'));
}

#[test]
fn scan_tokens_scans_from_the_cursor_to_the_end() {
    let mut lexer = Lexer::new("ab cd = 1".to_string());
    lexer.advance();
    assert_eq!(
        lexer.scan_tokens(),
        vec![
            token("b", TokenType::Var),
            token("cd", TokenType::Var),
            token("=", TokenType::Assign),
            token("1", TokenType::Int),
        ]
    );
    assert_eq!(lexer.current(), None);
    assert_eq!(lexer.scan_tokens(), vec![]);
}

#[test]
fn keyword_is_matched_on_the_whole_word_only() {
    let mut lexer = Lexer::new("xlist".to_string());
    lexer.advance();
    assert_eq!(lexer.scan_identifier(), token("list", TokenType::List));
    let mut lexer = Lexer::new("list".to_string());
    lexer.advance();
    assert_eq!(lexer.scan_identifier(), token("ist", TokenType::Var));
}

#[test]
fn advance_steps_over_the_end_of_the_line() {
    let mut lexer = Lexer::new("ab".to_string());
    lexer.advance();
    lexer.advance();
    assert_eq!(lexer.current(), None);
    lexer.advance();
    assert_eq!(lexer.current(), None);
    assert_eq!(lexer.peek(0), None);
    assert_eq!(lexer.peek(1), None);
    assert_eq!(lexer.peek(usize::MAX), None);
    lexer.advance();
    assert_eq!(lexer.current(), None);
    assert_eq!(lexer.peek(0), None);
}

#[test]
fn advance_on_the_empty_line() {
    let mut lexer = Lexer::new(String::new());
    lexer.advance();
    assert_eq!(lexer.current(), None);
    assert_eq!(lexer.peek(0), None);
    assert_eq!(lexer.peek(usize::MAX), None);
}

#[test]
fn behind_the_end_of_the_line_there_are_no_tokens() {
    let mut lexer = Lexer::new("x".to_string());
    lexer.advance();
    lexer.advance();
    lexer.advance();
    lexer.skip_whitespace();
    assert_eq!(lexer.current(), None);
    assert_eq!(lexer.scan_tokens(), vec![]);
    assert_eq!(lexer.current(), None);
    assert_eq!(lexer.peek(0), None);
}

#[test]
fn advance_after_a_whole_scan() {
    let mut lexer = Lexer::new("a + 1".to_string());
    assert_eq!(lexer.scan_tokens().len(), 3);
    lexer.advance();
    assert_eq!(lexer.current(), None);
    assert_eq!(lexer.peek(0), None);
    assert_eq!(lexer.scan_tokens(), vec![]);
}

#[test]
fn scanning_at_the_end_of_the_line_gives_empty_lexemes() {
    let mut lexer = Lexer::new("7".to_string());
    lexer.advance();
    assert_eq!(lexer.scan_number(), token("", TokenType::Int));
    assert_eq!(lexer.scan_identifier(), token("", TokenType::Var));
    assert_eq!(lexer.current(), None);
}
