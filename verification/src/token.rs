//! Tokens and their kinds.

use vstd::prelude::*;

verus! {

/// The closed set of token kinds.
#[derive(Debug, Clone, Copy, PartialEq, Eq, Structural)]
pub enum TokenType {
    /// An integer literal: digits only.
    Int,
    /// A real literal: a numeric literal with a decimal point or an exponent marker.
    Real,
    /// An identifier other than the reserved word.
    Var,
    /// The reserved word `list`.
    List,
    /// `+`
    Plus,
    /// `-`
    Minus,
    /// `*`
    Mult,
    /// `/`
    Div,
    /// `//`
    IntDiv,
    /// `^`
    Pow,
    /// `>`
    Gt,
    /// `>=`
    Gte,
    /// `<`
    Lt,
    /// `<=`
    Lte,
    /// `==`
    Eq,
    /// `!=`
    Neq,
    /// `=`
    Assign,
    /// `(`
    LParen,
    /// `)`
    RParen,
    /// `[`
    LBracket,
    /// `]`
    RBracket,
    /// A character that no rule recognizes, a lone `!` among them.
    Unrecognized,
}

impl TokenType {
    /// The canonical display string of a kind, as a sequence of characters.
    pub open spec fn display_name(self) -> Seq<char> {
        match self {
            TokenType::Int => seq!['I', 'N', 'T'],
            TokenType::Real => seq!['R', 'E', 'A', 'L'],
            TokenType::Var => seq!['V', 'A', 'R'],
            TokenType::List => seq!['l', 'i', 's', 't'],
            TokenType::Plus => seq!['+'],
            TokenType::Minus => seq!['-'],
            TokenType::Mult => seq!['*'],
            TokenType::Div => seq!['/'],
            TokenType::IntDiv => seq!['/', '/'],
            TokenType::Pow => seq!['P', 'O', 'W'],
            TokenType::Gt => seq!['>'],
            TokenType::Gte => seq!['>', '='],
            TokenType::Lt => seq!['<'],
            TokenType::Lte => seq!['<', '='],
            TokenType::Eq => seq!['=', '='],
            TokenType::Neq => seq!['!', '='],
            TokenType::Assign => seq!['='],
            TokenType::LParen => seq!['L', 'P', 'A', 'R', 'E', 'N'],
            TokenType::RParen => seq!['R', 'P', 'A', 'R', 'E', 'N'],
            TokenType::LBracket => seq!['L', 'B', 'R', 'A', 'C', 'K', 'E', 'T'],
            TokenType::RBracket => seq!['R', 'B', 'R', 'A', 'C', 'K', 'E', 'T'],
            TokenType::Unrecognized => seq!['E', 'R', 'R'],
        }
    }

    /// The canonical display string of this kind.
    pub fn to_string(&self) -> (name: &str)
        ensures
            name@ == self.display_name(),
    {
        proof {
            reveal_strlit("INT");
            reveal_strlit("REAL");
            reveal_strlit("VAR");
            reveal_strlit("list");
            reveal_strlit("+");
            reveal_strlit("-");
            reveal_strlit("*");
            reveal_strlit("/");
            reveal_strlit("//");
            reveal_strlit("POW");
            reveal_strlit(">");
            reveal_strlit(">=");
            reveal_strlit("<");
            reveal_strlit("<=");
            reveal_strlit("==");
            reveal_strlit("!=");
            reveal_strlit("=");
            reveal_strlit("LPAREN");
            reveal_strlit("RPAREN");
            reveal_strlit("LBRACKET");
            reveal_strlit("RBRACKET");
            reveal_strlit("ERR");
        }
        match self {
            TokenType::Int => "INT",
            TokenType::Real => "REAL",
            TokenType::Var => "VAR",
            TokenType::List => "list",
            TokenType::Plus => "+",
            TokenType::Minus => "-",
            TokenType::Mult => "*",
            TokenType::Div => "/",
            TokenType::IntDiv => "//",
            TokenType::Pow => "POW",
            TokenType::Gt => ">",
            TokenType::Gte => ">=",
            TokenType::Lt => "<",
            TokenType::Lte => "<=",
            TokenType::Eq => "==",
            TokenType::Neq => "!=",
            TokenType::Assign => "=",
            TokenType::LParen => "LPAREN",
            TokenType::RParen => "RPAREN",
            TokenType::LBracket => "LBRACKET",
            TokenType::RBracket => "RBRACKET",
            TokenType::Unrecognized => "ERR",
        }
    }
}

/// A token: the exact text that was consumed, and its kind.
#[derive(Debug, Clone, PartialEq, Eq)]
pub struct Token {
    /// The characters of the line that produced this token, unchanged.
    pub lexeme: String,
    /// The kind of the token.
    pub token_type: TokenType,
}

/// The mathematical value of a token.
pub struct TokenView {
    /// The characters of the lexeme.
    pub lexeme: Seq<char>,
    /// The kind of the token.
    pub token_type: TokenType,
}

impl View for Token {
    type V = TokenView;

    open spec fn view(&self) -> TokenView {
        TokenView { lexeme: self.lexeme@, token_type: self.token_type }
    }
}

impl DeepView for Token {
    type V = TokenView;

    open spec fn deep_view(&self) -> TokenView {
        self@
    }
}

} // verus!
