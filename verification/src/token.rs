//! Lexical tokens: the kind of a token, its source text, and the line it
//! came from.

use vstd::prelude::*;

verus! {

/// The kind of a lexical token: operators, literals, identifiers, and the
/// end-of-input marker.
#[derive(Clone, Copy, Debug, PartialEq, Eq, Structural)]
pub enum TokenType {
    LeftParen,
    RightParen,
    Minus,
    Plus,
    Slash,
    Star,
    Bang,
    Equal,
    Identifier,
    Number,
    EOF,
}

/// One lexical token: its kind, the source text it was read from, and the
/// line number it appeared on (kept for diagnostics).
#[derive(Debug)]
pub struct Token {
    pub ttype: TokenType,
    pub lexeme: String,
    pub line: u32,
}

/// The mathematical value of a [`Token`]: the same three components, with
/// the lexeme as a sequence of characters.
pub struct TokenV {
    pub ttype: TokenType,
    pub lexeme: Seq<char>,
    pub line: u32,
}

impl View for Token {
    type V = TokenV;

    open spec fn view(&self) -> TokenV {
        TokenV { ttype: self.ttype, lexeme: self.lexeme@, line: self.line }
    }
}

impl Token {
    /// Builds a token from its parts; the lexeme text is copied.
    pub fn new(ttype: TokenType, lexeme: &str, line: u32) -> (t: Token)
        ensures
            t@ == (TokenV { ttype, lexeme: lexeme@, line }),
    {
        Token { ttype, lexeme: lexeme.to_owned(), line }
    }
}

impl Clone for Token {
    /// A clone is equal to the token it was made from.
    fn clone(&self) -> (t: Self)
        ensures
            t == *self,
    {
        Token { ttype: self.ttype, lexeme: self.lexeme.clone(), line: self.line }
    }
}

} // verus!
