use vstd::prelude::*;

verus! {

/// The keywords that the statement classifier looks for; every other word
/// carries `NoKeyword`.
#[derive(PartialEq, Eq, Structural, Clone, Copy, Debug)]
pub enum Keyword {
    Insert,
    Into,
    Values,
    NoKeyword,
}

/// One lexical token of a dump statement, as handed over by the lexer.
/// String-like literals arrive already unescaped.
#[derive(Debug)]
pub enum Token {
    /// An identifier or a keyword, with its text.
    Word(String, Keyword),
    /// A numeric literal, digits with at most one `.`.
    Number(String),
    /// A single-character literal.
    Char(char),
    SingleQuotedString(String),
    NationalStringLiteral(String),
    HexStringLiteral(String),
    Comma,
    LParen,
    RParen,
    Period,
    Whitespace,
    /// Any other token (operators, comments, `;`).
    Other,
}

} // verus!
