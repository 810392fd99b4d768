use vstd::prelude::*;

verus! {

/// An enum with all the token kinds of the language
#[derive(Debug, Clone, Copy, PartialEq, Eq, Structural)]
pub enum TokenType {
    Plus,
    Dash,
    Star,
    Slash,
    NotEqual,
    SemiColon,
    LeftParen,
    RightParen,
    LeftBrace,
    RightBrace,
    LeftBracket,
    RightBracket,
    Equal,
    EqualEqual,
    LessThan,
    GreaterThan,
    LessEqual,
    GreaterEqual,
    Colon,
    Comma,
    Dot,
    Let,
    If,
    Else,
    Ret,
    Break,
    Continue,
    Func,
    While,
    New,
    Struct,
    Id,
    Int,
    Dec,
    Bool,
    Str,
    Char,
    Type,
    And,
    Or,
    Not,
    Error,
}

/// Stores each token's information
#[derive(Debug, PartialEq, Eq)]
pub struct Token {
    /// Kind of the token
    pub typ: TokenType,

    /// Value that is stored in the token
    pub value: String,

    /// Line number that the token is on
    pub lineno: usize,

    /// Column that the token is on
    pub col: usize,

    /// Line that the token is on (for printing errors)
    pub line: String,
}

impl Clone for Token {
    /// A clone of a token carries exactly the same fields
    fn clone(&self) -> (r: Token)
        ensures
            r == *self,
    {
        Token {
            typ: self.typ,
            value: self.value.clone(),
            lineno: self.lineno,
            col: self.col,
            line: self.line.clone(),
        }
    }
}

} // verus!
