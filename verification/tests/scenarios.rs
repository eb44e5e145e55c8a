use line_lexer::lexer::scan;
use line_lexer::render::{render_line, trace};
use line_lexer::token::{Token, TokenType};

fn token(lexeme: &str, token_type: TokenType) -> Token {
    Token { lexeme: lexeme.to_string(), token_type }
}

#[test]
fn assignment_with_integer_division() {
    let tokens = scan("x = 3 + 4 // 2");
    assert_eq!(
        tokens,
        vec![
            token("x", TokenType::Var),
            token("=", TokenType::Assign),
            token("3", TokenType::Int),
            token("+", TokenType::Plus),
            token("4", TokenType::Int),
            token("//", TokenType::IntDiv),
            token("2", TokenType::Int),
        ]
    );
    assert_eq!(render_line(&tokens), "x/VAR =/= 3/INT +/+ 4/INT ///// 2/INT");
    assert_eq!(trace("x = 3 + 4 // 2"), "x/VAR =/= 3/INT +/+ 4/INT ///// 2/INT");
}

#[test]
fn comparison_operators_in_a_line() {
    assert_eq!(
        scan("a >= 5 != b"),
        vec![
            token("a", TokenType::Var),
            token(">=", TokenType::Gte),
            token("5", TokenType::Int),
            token("!=", TokenType::Neq),
            token("b", TokenType::Var),
        ]
    );
    assert_eq!(trace("a >= 5 != b"), "a/VAR >=/>= 5/INT !=/!= b/VAR");
}

#[test]
fn lone_bang_is_unrecognized() {
    assert_eq!(
        scan("!x"),
        vec![token("!", TokenType::Unrecognized), token("x", TokenType::Var)]
    );
    assert_eq!(trace("!x"), "!/ERR x/VAR");
}

#[test]
fn empty_line_has_no_tokens() {
    assert_eq!(scan(""), vec![]);
    assert_eq!(render_line(&scan("")), "");
    assert_eq!(trace(""), "");
}

#[test]
fn blank_line_has_no_tokens() {
    assert_eq!(scan("   "), vec![]);
    assert_eq!(scan(" \t \r"), vec![]);
    assert_eq!(render_line(&scan(" \t  ")), "");
    assert_eq!(trace(" \t  "), "");
}

#[test]
fn two_character_operators_are_single_tokens() {
    assert_eq!(scan("//"), vec![token("//", TokenType::IntDiv)]);
    assert_eq!(scan(">="), vec![token(">=", TokenType::Gte)]);
    assert_eq!(scan("<="), vec![token("<=", TokenType::Lte)]);
    assert_eq!(scan("=="), vec![token("==", TokenType::Eq)]);
    assert_eq!(scan("!="), vec![token("!=", TokenType::Neq)]);
}

#[test]
fn two_character_operators_inside_a_line() {
    assert_eq!(
        scan("a//b"),
        vec![
            token("a", TokenType::Var),
            token("//", TokenType::IntDiv),
            token("b", TokenType::Var),
        ]
    );
    assert_eq!(
        scan("1<=2"),
        vec![
            token("1", TokenType::Int),
            token("<=", TokenType::Lte),
            token("2", TokenType::Int),
        ]
    );
}

#[test]
fn operators_are_taken_from_the_left() {
    assert_eq!(scan("///"), vec![token("//", TokenType::IntDiv), token("/", TokenType::Div)]);
    assert_eq!(scan("////"), vec![token("//", TokenType::IntDiv), token("//", TokenType::IntDiv)]);
    assert_eq!(scan("==="), vec![token("==", TokenType::Eq), token("=", TokenType::Assign)]);
    assert_eq!(scan(">=="), vec![token(">=", TokenType::Gte), token("=", TokenType::Assign)]);
    assert_eq!(scan("<=="), vec![token("<=", TokenType::Lte), token("=", TokenType::Assign)]);
    assert_eq!(scan("!=="), vec![token("!=", TokenType::Neq), token("=", TokenType::Assign)]);
    assert_eq!(scan("=>"), vec![token("=", TokenType::Assign), token(">", TokenType::Gt)]);
    assert_eq!(scan("=<"), vec![token("=", TokenType::Assign), token("<", TokenType::Lt)]);
    assert_eq!(scan("=!"), vec![token("=", TokenType::Assign), token("!", TokenType::Unrecognized)]);
}

#[test]
fn whitespace_separates_operator_characters() {
    assert_eq!(scan("/ /"), vec![token("/", TokenType::Div), token("/", TokenType::Div)]);
    assert_eq!(scan("> ="), vec![token(">", TokenType::Gt), token("=", TokenType::Assign)]);
    assert_eq!(scan("< ="), vec![token("<", TokenType::Lt), token("=", TokenType::Assign)]);
    assert_eq!(scan("= ="), vec![token("=", TokenType::Assign), token("=", TokenType::Assign)]);
    assert_eq!(
        scan("! ="),
        vec![token("!", TokenType::Unrecognized), token("=", TokenType::Assign)]
    );
}

#[test]
fn single_character_operators_and_punctuation() {
    assert_eq!(
        scan("+-*/^><=()[]"),
        vec![
            token("+", TokenType::Plus),
            token("-", TokenType::Minus),
            token("*", TokenType::Mult),
            token("/", TokenType::Div),
            token("^", TokenType::Pow),
            token(">", TokenType::Gt),
            token("<=", TokenType::Lte),
            token("(", TokenType::LParen),
            token(")", TokenType::RParen),
            token("[", TokenType::LBracket),
            token("]", TokenType::RBracket),
        ]
    );
    assert_eq!(scan("<"), vec![token("<", TokenType::Lt)]);
    assert_eq!(scan("="), vec![token("=", TokenType::Assign)]);
    assert_eq!(scan("/"), vec![token("/", TokenType::Div)]);
    assert_eq!(scan(">"), vec![token(">", TokenType::Gt)]);
}

#[test]
fn integer_literal() {
    assert_eq!(scan("123"), vec![token("123", TokenType::Int)]);
    assert_eq!(scan("0"), vec![token("0", TokenType::Int)]);
    assert_eq!(scan("007"), vec![token("007", TokenType::Int)]);
}

#[test]
fn real_literals() {
    assert_eq!(scan("3.14"), vec![token("3.14", TokenType::Real)]);
    assert_eq!(scan("2e10"), vec![token("2e10", TokenType::Real)]);
    assert_eq!(scan("2e+5"), vec![token("2e+5", TokenType::Real)]);
    assert_eq!(scan("2E-5"), vec![token("2E-5", TokenType::Real)]);
    assert_eq!(scan("6.02e23"), vec![token("6.02e23", TokenType::Real)]);
    assert_eq!(scan("1."), vec![token("1.", TokenType::Real)]);
    assert_eq!(scan("1.e5"), vec![token("1.e5", TokenType::Real)]);
}

#[test]
fn second_decimal_point_ends_the_literal() {
    assert_eq!(
        scan("1.2.3"),
        vec![
            token("1.2", TokenType::Real),
            token(".", TokenType::Unrecognized),
            token("3", TokenType::Int),
        ]
    );
    assert_eq!(
        scan("1..2"),
        vec![
            token("1.", TokenType::Real),
            token(".", TokenType::Unrecognized),
            token("2", TokenType::Int),
        ]
    );
}

#[test]
fn dangling_exponent_is_kept() {
    assert_eq!(scan("2e"), vec![token("2e", TokenType::Real)]);
    assert_eq!(scan("2e+"), vec![token("2e+", TokenType::Real)]);
    assert_eq!(scan("2E-"), vec![token("2E-", TokenType::Real)]);
    assert_eq!(
        scan("2e+ 5"),
        vec![token("2e+", TokenType::Real), token("5", TokenType::Int)]
    );
    assert_eq!(
        scan("2ex"),
        vec![token("2e", TokenType::Real), token("x", TokenType::Var)]
    );
}

#[test]
fn exponent_takes_one_sign_and_no_decimal_point() {
    assert_eq!(
        scan("1e+-2"),
        vec![
            token("1e+", TokenType::Real),
            token("-", TokenType::Minus),
            token("2", TokenType::Int),
        ]
    );
    assert_eq!(
        scan("1e5.2"),
        vec![
            token("1e5", TokenType::Real),
            token(".", TokenType::Unrecognized),
            token("2", TokenType::Int),
        ]
    );
    assert_eq!(
        scan("5e5e5"),
        vec![token("5e5", TokenType::Real), token("e5", TokenType::Var)]
    );
    assert_eq!(
        scan("1.5e2+3"),
        vec![
            token("1.5e2", TokenType::Real),
            token("+", TokenType::Plus),
            token("3", TokenType::Int),
        ]
    );
    assert_eq!(
        scan("3+4"),
        vec![
            token("3", TokenType::Int),
            token("+", TokenType::Plus),
            token("4", TokenType::Int),
        ]
    );
}

#[test]
fn literal_begins_with_a_digit() {
    assert_eq!(
        scan(".5"),
        vec![token(".", TokenType::Unrecognized), token("5", TokenType::Int)]
    );
    assert_eq!(
        scan("-5"),
        vec![token("-", TokenType::Minus), token("5", TokenType::Int)]
    );
    assert_eq!(
        scan("12abc"),
        vec![token("12", TokenType::Int), token("abc", TokenType::Var)]
    );
}

#[test]
fn keyword_and_identifiers() {
    assert_eq!(scan("list"), vec![token("list", TokenType::List)]);
    assert_eq!(scan("listing"), vec![token("listing", TokenType::Var)]);
    assert_eq!(scan("_x1"), vec![token("_x1", TokenType::Var)]);
    assert_eq!(scan("lis"), vec![token("lis", TokenType::Var)]);
    assert_eq!(scan("List"), vec![token("List", TokenType::Var)]);
    assert_eq!(scan("LIST"), vec![token("LIST", TokenType::Var)]);
    assert_eq!(scan("list_"), vec![token("list_", TokenType::Var)]);
    assert_eq!(scan("_list"), vec![token("_list", TokenType::Var)]);
    assert_eq!(scan("list1"), vec![token("list1", TokenType::Var)]);
    assert_eq!(scan("lisp"), vec![token("lisp", TokenType::Var)]);
    assert_eq!(scan("_"), vec![token("_", TokenType::Var)]);
    assert_eq!(scan("x"), vec![token("x", TokenType::Var)]);
}

#[test]
fn keyword_among_other_tokens() {
    assert_eq!(
        scan("list[list]"),
        vec![
            token("list", TokenType::List),
            token("[", TokenType::LBracket),
            token("list", TokenType::List),
            token("]", TokenType::RBracket),
        ]
    );
    assert_eq!(trace("  list  x"), "list/list x/VAR");
}

#[test]
fn unrecognized_characters_are_tokens() {
    assert_eq!(
        scan("a @ b"),
        vec![
            token("a", TokenType::Var),
            token("@", TokenType::Unrecognized),
            token("b", TokenType::Var),
        ]
    );
    assert_eq!(
        scan("#$"),
        vec![token("#", TokenType::Unrecognized), token("$", TokenType::Unrecognized)]
    );
    assert_eq!(scan("\u{20ac}"), vec![token("\u{20ac}", TokenType::Unrecognized)]);
    assert_eq!(scan("\u{1f600}"), vec![token("\u{1f600}", TokenType::Unrecognized)]);
    assert_eq!(trace("a @ b"), "a/VAR @/ERR b/VAR");
}

#[test]
fn scanning_twice_gives_the_same_tokens() {
    let line = "total = list[ 1.5e3 , x_1 ] // 2 != y";
    assert_eq!(scan(line), scan(line));
    let copy = line.to_string();
    assert_eq!(scan(line), scan(&copy));
}

#[test]
fn lexemes_and_skipped_whitespace_make_up_the_line() {
    let line = "  x1 =\t(3.5e+2//y)  != list ! ";
    let tokens = scan(line);
    let mut rest = line;
    let mut rebuilt = String::new();
    for token in &tokens {
        let skipped = rest.len() - rest.trim_start().len();
        rebuilt.push_str(&rest[..skipped]);
        rest = &rest[skipped..];
        assert!(rest.starts_with(token.lexeme.as_str()));
        rebuilt.push_str(&token.lexeme);
        rest = &rest[token.lexeme.len()..];
    }
    assert!(rest.chars().all(|c| c.is_whitespace()));
    rebuilt.push_str(rest);
    assert_eq!(rebuilt, line);
    assert_eq!(tokens.len(), 10);
}
