//! Scanner tokens: the leaves of the program tree.
//!
//! Tokens are produced by an external scanner and are never mutated here.
//! Each one carries its category, its raw source text, and a 1-based line
//! number used to tag runtime diagnostics.

use vstd::prelude::*;

verus! {

/// The category of a token embedded in the program tree.
#[derive(Clone, Copy, PartialEq, Eq, Structural, Debug)]
pub enum TokenKind {
    Number,
    String,
    True,
    False,
    Nil,
    Identifier,
    Bang,
    Plus,
    Minus,
    Star,
    Slash,
    Greater,
    GreaterEqual,
    Less,
    LessEqual,
    EqualEqual,
    BangEqual,
    Equal,
    Print,
    Var,
    If,
    Else,
    While,
    Break,
    Return,
    Fun,
}

/// An immutable scanner token: a kind tag, the raw source text, and the
/// 1-based source line it came from.
pub struct Token {
    pub kind: TokenKind,
    pub text: String,
    pub line: u64,
}

impl Token {
    /// Builds a token from its parts.
    pub fn create(kind: TokenKind, text: String, line: u64) -> (t: Token)
        ensures
            t.kind == kind,
            t.text == text,
            t.line == line,
    {
        Token { kind, text, line }
    }

    /// The token's kind tag.
    pub fn kind(&self) -> (k: TokenKind)
        ensures
            k == self.kind,
    {
        self.kind
    }

    /// The token's raw source text.
    pub fn text(&self) -> (t: &String)
        ensures
            t == self.text,
    {
        &self.text
    }

    /// The 1-based source line the token came from.
    pub fn line(&self) -> (l: u64)
        ensures
            l == self.line,
    {
        self.line
    }

    /// A copy of this token, equal to the original in every field.
    pub fn duplicate(&self) -> (t: Token)
        ensures
            t == *self,
    {
        Token { kind: self.kind, text: self.text.clone(), line: self.line }
    }
}

} // verus!
