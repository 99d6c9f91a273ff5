//! The lexical categories of the language.

use vstd::prelude::*;
use crate::text::{int_literal, parse_i32};

verus! {

/// One lexical token. Literals and identifiers carry their text verbatim.
#[derive(Debug, PartialEq)]
pub enum Token {
    INT(String),
    FLOAT(String),
    BOOL(bool),
    ID(String),
    NEWLINE,
    INDENT,
    DEDENT,
    IF,
    ELSE,
    WHILE,
    DEF,
    RETURN,
    COLON,
    COMMA,
    OR,
    AND,
    NOT,
    EQ,
    NE,
    LE,
    GE,
    LT,
    GT,
    ASSIGN,
    PLUS,
    MINUS,
    MUL,
    DIV,
    LPAREN,
    RPAREN,
    EOF,
}

/// A token as contracts see it: the same categories, with text as a
/// sequence of characters.
pub enum TokenView {
    INT(Seq<char>),
    FLOAT(Seq<char>),
    BOOL(bool),
    ID(Seq<char>),
    NEWLINE,
    INDENT,
    DEDENT,
    IF,
    ELSE,
    WHILE,
    DEF,
    RETURN,
    COLON,
    COMMA,
    OR,
    AND,
    NOT,
    EQ,
    NE,
    LE,
    GE,
    LT,
    GT,
    ASSIGN,
    PLUS,
    MINUS,
    MUL,
    DIV,
    LPAREN,
    RPAREN,
    EOF,
}

impl View for Token {
    type V = TokenView;

    open spec fn view(&self) -> TokenView {
        match self {
            Token::INT(s) => TokenView::INT(s@),
            Token::FLOAT(s) => TokenView::FLOAT(s@),
            Token::BOOL(b) => TokenView::BOOL(*b),
            Token::ID(s) => TokenView::ID(s@),
            Token::NEWLINE => TokenView::NEWLINE,
            Token::INDENT => TokenView::INDENT,
            Token::DEDENT => TokenView::DEDENT,
            Token::IF => TokenView::IF,
            Token::ELSE => TokenView::ELSE,
            Token::WHILE => TokenView::WHILE,
            Token::DEF => TokenView::DEF,
            Token::RETURN => TokenView::RETURN,
            Token::COLON => TokenView::COLON,
            Token::COMMA => TokenView::COMMA,
            Token::OR => TokenView::OR,
            Token::AND => TokenView::AND,
            Token::NOT => TokenView::NOT,
            Token::EQ => TokenView::EQ,
            Token::NE => TokenView::NE,
            Token::LE => TokenView::LE,
            Token::GE => TokenView::GE,
            Token::LT => TokenView::LT,
            Token::GT => TokenView::GT,
            Token::ASSIGN => TokenView::ASSIGN,
            Token::PLUS => TokenView::PLUS,
            Token::MINUS => TokenView::MINUS,
            Token::MUL => TokenView::MUL,
            Token::DIV => TokenView::DIV,
            Token::LPAREN => TokenView::LPAREN,
            Token::RPAREN => TokenView::RPAREN,
            Token::EOF => TokenView::EOF,
        }
    }
}

impl Clone for Token {
    fn clone(&self) -> (r: Self)
        ensures
            r@ == self@,
    {
        match self {
            Token::INT(s) => Token::INT(s.clone()),
            Token::FLOAT(s) => Token::FLOAT(s.clone()),
            Token::BOOL(b) => Token::BOOL(*b),
            Token::ID(s) => Token::ID(s.clone()),
            Token::NEWLINE => Token::NEWLINE,
            Token::INDENT => Token::INDENT,
            Token::DEDENT => Token::DEDENT,
            Token::IF => Token::IF,
            Token::ELSE => Token::ELSE,
            Token::WHILE => Token::WHILE,
            Token::DEF => Token::DEF,
            Token::RETURN => Token::RETURN,
            Token::COLON => Token::COLON,
            Token::COMMA => Token::COMMA,
            Token::OR => Token::OR,
            Token::AND => Token::AND,
            Token::NOT => Token::NOT,
            Token::EQ => Token::EQ,
            Token::NE => Token::NE,
            Token::LE => Token::LE,
            Token::GE => Token::GE,
            Token::LT => Token::LT,
            Token::GT => Token::GT,
            Token::ASSIGN => Token::ASSIGN,
            Token::PLUS => Token::PLUS,
            Token::MINUS => Token::MINUS,
            Token::MUL => Token::MUL,
            Token::DIV => Token::DIV,
            Token::LPAREN => Token::LPAREN,
            Token::RPAREN => Token::RPAREN,
            Token::EOF => Token::EOF,
        }
    }
}

impl TokenView {
    /// The integer that an integer literal writes; nothing for any other
    /// token, nor for a literal that writes no 32-bit integer.
    pub open spec fn integer(self) -> Option<i32> {
        match self {
            TokenView::INT(text) => int_literal(text),
            _ => None,
        }
    }

    /// The truth value of a boolean literal; nothing for any other token.
    pub open spec fn boolean(self) -> Option<bool> {
        match self {
            TokenView::BOOL(b) => Some(b),
            _ => None,
        }
    }

    /// The name that an identifier carries; nothing for any other token.
    pub open spec fn identifier(self) -> Option<Seq<char>> {
        match self {
            TokenView::ID(name) => Some(name),
            _ => None,
        }
    }
}

impl Token {
    /// The value of an integer literal, read from its text.
    pub fn integer(&self) -> (r: Option<i32>)
        ensures
            r == self@.integer(),
    {
        match self {
            Token::INT(text) => parse_i32(text.as_str()),
            _ => None,
        }
    }

    /// The value of a boolean literal.
    pub fn boolean(&self) -> (r: Option<bool>)
        ensures
            r == self@.boolean(),
    {
        match self {
            Token::BOOL(b) => Some(*b),
            _ => None,
        }
    }

    /// A copy of the name that an identifier carries.
    pub fn identifier(&self) -> (r: Option<String>)
        ensures
            r is Some == self@.identifier() is Some,
            r matches Some(name) ==> self@.identifier() == Some(name@),
    {
        match self {
            Token::ID(name) => Some(name.clone()),
            _ => None,
        }
    }

    /// Tells whether two tokens are of the same category and carry the same
    /// text.
    pub fn same(&self, other: &Token) -> (r: bool)
        ensures
            r == (self@ == other@),
    {
        match (self, other) {
            (Token::INT(a), Token::INT(b)) => *a == *b,
            (Token::FLOAT(a), Token::FLOAT(b)) => *a == *b,
            (Token::BOOL(a), Token::BOOL(b)) => *a == *b,
            (Token::ID(a), Token::ID(b)) => *a == *b,
            (Token::NEWLINE, Token::NEWLINE) => true,
            (Token::INDENT, Token::INDENT) => true,
            (Token::DEDENT, Token::DEDENT) => true,
            (Token::IF, Token::IF) => true,
            (Token::ELSE, Token::ELSE) => true,
            (Token::WHILE, Token::WHILE) => true,
            (Token::DEF, Token::DEF) => true,
            (Token::RETURN, Token::RETURN) => true,
            (Token::COLON, Token::COLON) => true,
            (Token::COMMA, Token::COMMA) => true,
            (Token::OR, Token::OR) => true,
            (Token::AND, Token::AND) => true,
            (Token::NOT, Token::NOT) => true,
            (Token::EQ, Token::EQ) => true,
            (Token::NE, Token::NE) => true,
            (Token::LE, Token::LE) => true,
            (Token::GE, Token::GE) => true,
            (Token::LT, Token::LT) => true,
            (Token::GT, Token::GT) => true,
            (Token::ASSIGN, Token::ASSIGN) => true,
            (Token::PLUS, Token::PLUS) => true,
            (Token::MINUS, Token::MINUS) => true,
            (Token::MUL, Token::MUL) => true,
            (Token::DIV, Token::DIV) => true,
            (Token::LPAREN, Token::LPAREN) => true,
            (Token::RPAREN, Token::RPAREN) => true,
            (Token::EOF, Token::EOF) => true,
            _ => false,
        }
    }
}

} // verus!
