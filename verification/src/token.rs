//! The token alphabet that the parser consumes.
//!
//! Tokens are produced by a lexer outside this crate; the parser never
//! inspects raw source text. A token carries no position information.

use vstd::prelude::*;

verus! {

/// One lexical unit of the language.
///
/// Literals carry their payload; `Operator` carries the operator symbol as
/// written; `Type` carries a type name; `Error` stands for a unit the lexer
/// could not classify.
#[derive(Debug, PartialEq)]
pub enum Token {
    /// Integer literal.
    Num(i64),
    /// String literal.
    Str(String),
    /// Boolean literal.
    Bool(bool),
    /// A name: a variable or function identifier.
    Identifier(String),
    /// A binary operator symbol such as `+` or `==`.
    Operator(String),
    /// A type name such as `int`.
    Type(String),
    /// The `func` keyword.
    Func,
    /// The `return` keyword.
    Return,
    /// The assignment symbol `:=`.
    SetVal,
    /// `(`
    LParen,
    /// `)`
    RParen,
    /// `{`
    LBrace,
    /// `}`
    RBrace,
    /// `,`
    Comma,
    /// `;` — the statement terminator.
    Semicolon,
    /// The return-type arrow `->`.
    ReturnType,
    /// An explicit lexer error.
    Error,
}

/// Specification-level model of a [`Token`]: strings become character
/// sequences, so that two tokens spelled alike are equal as models.
pub enum TokenView {
    Num(i64),
    Str(Seq<char>),
    Bool(bool),
    Identifier(Seq<char>),
    Operator(Seq<char>),
    Type(Seq<char>),
    Func,
    Return,
    SetVal,
    LParen,
    RParen,
    LBrace,
    RBrace,
    Comma,
    Semicolon,
    ReturnType,
    Error,
}

impl View for Token {
    type V = TokenView;

    open spec fn view(&self) -> TokenView {
        match self {
            Token::Num(n) => TokenView::Num(*n),
            Token::Str(s) => TokenView::Str(s@),
            Token::Bool(b) => TokenView::Bool(*b),
            Token::Identifier(s) => TokenView::Identifier(s@),
            Token::Operator(s) => TokenView::Operator(s@),
            Token::Type(s) => TokenView::Type(s@),
            Token::Func => TokenView::Func,
            Token::Return => TokenView::Return,
            Token::SetVal => TokenView::SetVal,
            Token::LParen => TokenView::LParen,
            Token::RParen => TokenView::RParen,
            Token::LBrace => TokenView::LBrace,
            Token::RBrace => TokenView::RBrace,
            Token::Comma => TokenView::Comma,
            Token::Semicolon => TokenView::Semicolon,
            Token::ReturnType => TokenView::ReturnType,
            Token::Error => TokenView::Error,
        }
    }
}

impl DeepView for Token {
    type V = TokenView;

    open spec fn deep_view(&self) -> TokenView {
        self.view()
    }
}

impl Clone for Token {
    /// Cloning a token preserves it exactly.
    fn clone(&self) -> (res: Token)
        ensures
            res == self,
    {
        match self {
            Token::Num(n) => Token::Num(*n),
            Token::Str(s) => Token::Str(s.clone()),
            Token::Bool(b) => Token::Bool(*b),
            Token::Identifier(s) => Token::Identifier(s.clone()),
            Token::Operator(s) => Token::Operator(s.clone()),
            Token::Type(s) => Token::Type(s.clone()),
            Token::Func => Token::Func,
            Token::Return => Token::Return,
            Token::SetVal => Token::SetVal,
            Token::LParen => Token::LParen,
            Token::RParen => Token::RParen,
            Token::LBrace => Token::LBrace,
            Token::RBrace => Token::RBrace,
            Token::Comma => Token::Comma,
            Token::Semicolon => Token::Semicolon,
            Token::ReturnType => Token::ReturnType,
            Token::Error => Token::Error,
        }
    }
}

} // verus!
