use vstd::prelude::*;
use vstd::string::StringExecFns;

use crate::token::Token;

verus! {

/// An enum with all the possible error types
#[derive(Debug, PartialEq, Eq, Clone, Copy, Structural)]
pub enum ErrorType {
    /// Lexer errors
    UnexpectedEOF,
    UnknownChar,
    DecTooManyDots,
    DecNotFound,
    /// Parser errors
    ExpectedToken,
    MismatchedTypes,
    UndefinedArray,
    UndefinedSymbol,
    DuplicateSymbol,
}

/// Stores information for an error
#[derive(Debug, PartialEq, Eq)]
pub struct Error {
    /// Type of the error
    pub typ: ErrorType,
    /// Location of the error:
    /// line number, column, line, value
    pub location: (usize, usize, String, String),
    /// Side notes and suggestions
    pub helpers: String,
}

/// The diagnostic message that belongs to each error type
pub open spec fn message_spec(e: ErrorType) -> Seq<char> {
    match e {
        ErrorType::UnexpectedEOF => "Unexpected end of input"@,
        ErrorType::UnknownChar => "Unexpected character"@,
        ErrorType::DecTooManyDots => "Floating point number has multiple dots"@,
        ErrorType::DecNotFound => "Expected digits after dot"@,
        ErrorType::ExpectedToken => "Expected token"@,
        ErrorType::MismatchedTypes => "Mismatched types"@,
        ErrorType::UndefinedArray => "This array has no explicit type"@,
        ErrorType::UndefinedSymbol => "This symbol is undefined"@,
        ErrorType::DuplicateSymbol => "This symbol already exists"@,
    }
}

/// Finds the correct error message for a given ErrorType
pub fn message_for(e: ErrorType) -> (r: String)
    ensures
        r@ == message_spec(e),
{
    match e {
        ErrorType::UnexpectedEOF => String::from_str("Unexpected end of input"),
        ErrorType::UnknownChar => String::from_str("Unexpected character"),
        ErrorType::DecTooManyDots => String::from_str("Floating point number has multiple dots"),
        ErrorType::DecNotFound => String::from_str("Expected digits after dot"),
        ErrorType::ExpectedToken => String::from_str("Expected token"),
        ErrorType::MismatchedTypes => String::from_str("Mismatched types"),
        ErrorType::UndefinedArray => String::from_str("This array has no explicit type"),
        ErrorType::UndefinedSymbol => String::from_str("This symbol is undefined"),
        ErrorType::DuplicateSymbol => String::from_str("This symbol already exists"),
    }
}

/// Implement functions for an error
impl Error {
    /// Adds a suggestion to the error
    pub fn help(&mut self, s: &str)
        ensures
            final(self).typ == old(self).typ,
            final(self).location == old(self).location,
            final(self).helpers@ == old(self).helpers@ + "help: "@ + s@ + "\n"@,
    {
        self.helpers.append("help: ");
        self.helpers.append(s);
        self.helpers.append("\n");
    }

    /// Adds a side note to the error
    pub fn note(&mut self, s: &str)
        ensures
            final(self).typ == old(self).typ,
            final(self).location == old(self).location,
            final(self).helpers@ == old(self).helpers@ + "note: "@ + s@ + "\n"@,
    {
        self.helpers.append("note: ");
        self.helpers.append(s);
        self.helpers.append("\n");
    }
}

/// Creates an error located at the given token, with no notes yet
pub fn error(t: ErrorType, token: &Token) -> (e: Error)
    ensures
        e.typ == t,
        e.location.0 == token.lineno,
        e.location.1 == token.col,
        e.location.2@ == token.line@,
        e.location.3@ == token.value@,
        e.helpers@ == Seq::<char>::empty(),
{
    Error {
        typ: t,
        location: (token.lineno, token.col, token.line.clone(), token.value.clone()),
        helpers: String::new(),
    }
}

} // verus!
