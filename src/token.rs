//! Tokens handed from the lexer to the assembler.
use vstd::prelude::*;
use crate::opcodes::Mnemonic;

verus! {

/// Register names as written in assembly source.
#[derive(Clone, Copy, PartialEq, Eq, Structural, Debug)]
pub enum Register {
    A,
    B,
    C,
    D,
    E,
    H,
    L,
    M,
    SP,
    PSW,
}

/// A token: a mnemonic, an immediate, a label, a separator, a register or the end marker.
#[derive(Clone, Debug)]
pub enum TokenType {
    Operation(Mnemonic),
    U8(u8),
    U16(u16),
    Label(String),
    Comma,
    Colon,
    Register(Register),
    End,
}

/// The kind of a token, without its payload.
#[derive(Clone, Copy, PartialEq, Eq, Structural, Debug)]
pub enum TokenKind {
    Operation,
    U8,
    U16,
    Label,
    Comma,
    Colon,
    Register,
    End,
}

/// A token with its 1-based (line, column) position.
#[derive(Debug)]
pub struct Token {
    pub position: (usize, usize),
    pub token: TokenType,
}

/// The tokens of a source text, ending with an `End` token.
pub struct TokenStream {
    pub tokens: Vec<Token>,
}

pub open spec fn kind_of(t: TokenType) -> TokenKind {
    match t {
        TokenType::Operation(_) => TokenKind::Operation,
        TokenType::U8(_) => TokenKind::U8,
        TokenType::U16(_) => TokenKind::U16,
        TokenType::Label(_) => TokenKind::Label,
        TokenType::Comma => TokenKind::Comma,
        TokenType::Colon => TokenKind::Colon,
        TokenType::Register(_) => TokenKind::Register,
        TokenType::End => TokenKind::End,
    }
}

impl TokenType {
    /// The kind of this token.
    pub fn kind(&self) -> (k: TokenKind)
        ensures
            k == kind_of(*self),
    {
        match self {
            TokenType::Operation(_) => TokenKind::Operation,
            TokenType::U8(_) => TokenKind::U8,
            TokenType::U16(_) => TokenKind::U16,
            TokenType::Label(_) => TokenKind::Label,
            TokenType::Comma => TokenKind::Comma,
            TokenType::Colon => TokenKind::Colon,
            TokenType::Register(_) => TokenKind::Register,
            TokenType::End => TokenKind::End,
        }
    }
}

impl TokenType {
    /// A copy of this token.
    pub fn duplicate(&self) -> (r: TokenType)
        ensures
            r == *self,
    {
        match self {
            TokenType::Operation(m) => TokenType::Operation(*m),
            TokenType::U8(v) => TokenType::U8(*v),
            TokenType::U16(v) => TokenType::U16(*v),
            TokenType::Label(s) => TokenType::Label(s.clone()),
            TokenType::Comma => TokenType::Comma,
            TokenType::Colon => TokenType::Colon,
            TokenType::Register(r) => TokenType::Register(*r),
            TokenType::End => TokenType::End,
        }
    }
}

impl Token {
    /// A copy of this token.
    pub fn duplicate(&self) -> (r: Token)
        ensures
            r == *self,
    {
        Token { position: self.position, token: self.token.duplicate() }
    }
}

impl TokenStream {
    /// The tokens, in source order.
    pub fn iter(&self) -> (r: &[Token])
        ensures
            r@ == self.tokens@,
    {
        self.tokens.as_slice()
    }
}

} // verus!
