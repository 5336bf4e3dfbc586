//! Errors reported by the lexer and the assembler.
use vstd::prelude::*;
use crate::token::TokenKind;

verus! {

#[derive(Debug)]
pub enum ErrorKind {
    /// A numeric literal that is malformed or does not fit in 16 bits.
    NumberError(String),
    /// An operand of the right token kind but wrong for the instruction: expected, found.
    InvalidArguments(String, String),
    /// A lexeme that is neither a number, a mnemonic, a register nor an identifier.
    UnexpectedLexeme(String),
    /// A token of a kind the parser did not accept here: the accepted kinds, the kind found.
    UnexpectedToken(Vec<TokenKind>, TokenKind),
    /// The tokens ran out inside an instruction.
    Eof,
    /// A label defined a second time.
    DuplicateLabel(String),
    /// A reference to a label that is never defined.
    UndefinedLabel(String),
}

/// An error with the 1-based (line, column) position it refers to.
#[derive(Debug)]
pub struct ParseError {
    pub position: (usize, usize),
    pub error: ErrorKind,
}

/// What an error says, as plain values.
pub enum Fault {
    Number(Seq<char>),
    Invalid,
    Lexeme(Seq<char>),
    Unexpected(Seq<TokenKind>, TokenKind),
    Eof,
    Duplicate(Seq<char>),
    Undefined(Seq<char>),
}

impl ParseError {
    pub open spec fn fault(self) -> Fault {
        match self.error {
            ErrorKind::NumberError(s) => Fault::Number(s@),
            ErrorKind::InvalidArguments(_, _) => Fault::Invalid,
            ErrorKind::UnexpectedLexeme(s) => Fault::Lexeme(s@),
            ErrorKind::UnexpectedToken(v, k) => Fault::Unexpected(v@, k),
            ErrorKind::Eof => Fault::Eof,
            ErrorKind::DuplicateLabel(s) => Fault::Duplicate(s@),
            ErrorKind::UndefinedLabel(s) => Fault::Undefined(s@),
        }
    }
}

} // verus!
