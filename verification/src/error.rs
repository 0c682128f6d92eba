//! The two ways in which a compile stops: no token, or not the token that the grammar asks for.

use vstd::prelude::*;
use vstd::string::*;
use crate::token::{spelling, Lexeme, Token};

verus! {

/// What the grammar asks for at the place where parsing stopped.
#[derive(Clone, Copy, Debug, PartialEq, Eq, Structural)]
pub enum Expected {
    /// The keyword `fn`.
    Function,
    /// The keyword `then`.
    Then,
    /// The keyword `else`.
    Else,
    /// `(`
    LParen,
    /// `)`
    RParen,
    /// `{`
    LBrace,
    /// `}`
    RBrace,
    /// The name of a function or of a parameter.
    Name,
    /// A number or a name, with which an expression begins.
    Atom,
    /// The name of one of the parameters of the function.
    Parameter,
}

/// No token starts at the text that is left.
#[derive(Debug, PartialEq)]
pub enum LexError {
    /// Holds the text that is left, without the whitespace at its start.
    NoToken(String),
}

/// The token that was read is not what the grammar asks for.
#[derive(Debug, PartialEq)]
pub struct ParseError {
    /// What the grammar asks for.
    pub expected: Expected,
    /// The token that was read in its place.
    pub found: Token,
    /// The text that is left behind that token.
    pub near: String,
}

/// Why a compile stopped.
#[derive(Debug, PartialEq)]
pub enum CompileError {
    Lex(LexError),
    Parse(ParseError),
}

/// What an error stands for, over mathematical text.
pub enum Failure {
    /// No token starts at this text.
    NoToken(Seq<char>),
    /// The grammar asked for the first, the second was read, and the third is the text left
    /// behind it.
    Unexpected(Expected, Lexeme, Seq<char>),
}

impl View for LexError {
    type V = Failure;

    open spec fn view(&self) -> Failure {
        match self {
            LexError::NoToken(near) => Failure::NoToken(near@),
        }
    }
}

impl View for ParseError {
    type V = Failure;

    open spec fn view(&self) -> Failure {
        Failure::Unexpected(self.expected, self.found@, self.near@)
    }
}

impl View for CompileError {
    type V = Failure;

    open spec fn view(&self) -> Failure {
        match self {
            CompileError::Lex(e) => e@,
            CompileError::Parse(e) => e@,
        }
    }
}

/// The words for what the grammar asks for.
pub open spec fn description(expected: Expected) -> Seq<char> {
    match expected {
        Expected::Function => "`fn`"@,
        Expected::Then => "`then`"@,
        Expected::Else => "`else`"@,
        Expected::LParen => "`(`"@,
        Expected::RParen => "`)`"@,
        Expected::LBrace => "`{`"@,
        Expected::RBrace => "`}`"@,
        Expected::Name => "a name"@,
        Expected::Atom => "a number or a name"@,
        Expected::Parameter => "a parameter"@,
    }
}

/// The message of an error, for a human reader.
pub open spec fn message_of(failure: Failure) -> Seq<char> {
    match failure {
        Failure::NoToken(near) => "No token at "@ + near,
        Failure::Unexpected(expected, found, near) => "Expected "@ + description(expected)
            + ", found `"@ + spelling(found) + "` near "@ + near,
    }
}

impl Expected {
    /// The words for what the grammar asks for.
    pub fn describe(&self) -> (text: &'static str)
        ensures
            text@ == description(*self),
    {
        match self {
            Expected::Function => "`fn`",
            Expected::Then => "`then`",
            Expected::Else => "`else`",
            Expected::LParen => "`(`",
            Expected::RParen => "`)`",
            Expected::LBrace => "`{`",
            Expected::RBrace => "`}`",
            Expected::Name => "a name",
            Expected::Atom => "a number or a name",
            Expected::Parameter => "a parameter",
        }
    }
}

impl LexError {
    /// The message of this error.
    pub fn message(&self) -> (text: String)
        ensures
            text@ == message_of(self@),
    {
        match self {
            LexError::NoToken(near) => String::from_str("No token at ").concat(near.as_str()),
        }
    }
}

impl ParseError {
    /// The message of this error.
    pub fn message(&self) -> (text: String)
        ensures
            text@ == message_of(self@),
    {
        let mut text = String::from_str("Expected ");
        text.append(self.expected.describe());
        text.append(", found `");
        text.append(self.found.text().as_str());
        text.append("` near ");
        text.append(self.near.as_str());
        text
    }
}

impl CompileError {
    /// The message of this error.
    pub fn message(&self) -> (text: String)
        ensures
            text@ == message_of(self@),
    {
        match self {
            CompileError::Lex(e) => e.message(),
            CompileError::Parse(e) => e.message(),
        }
    }
}

} // verus!
