use vstd::prelude::*;

verus! {

/// A source region, as byte offsets into the invocation's text.
#[derive(Clone, Copy, Debug, PartialEq, Eq, Structural)]
pub struct Span {
    pub lo: u32,
    pub hi: u32,
}

/// The kind of brackets that close a token group.
#[derive(Clone, Copy, Debug, PartialEq, Eq, Structural)]
pub enum Delim {
    /// `[ ... ]`: an array.
    Bracket,
    /// `( ... )`
    Paren,
    /// `{ ... }`
    Brace,
}

/// A literal as the lexer delivers it. Byte strings keep their source
/// characters: no escape sequence is decoded.
#[derive(Clone, Debug)]
pub enum Lit {
    ByteStr(Vec<u8>),
    Int(u64),
    Char(char),
    Str(String),
}

/// One token of an invocation's argument list.
pub enum Token {
    Literal(Span, Lit),
    /// A comma.
    Separator(Span),
    Group(Span, Delim, Vec<Token>),
    /// A token that stands for an expression bound elsewhere; the box holds
    /// that expression.
    Reference(Span, Box<Token>),
    /// Identifiers, operators and every other token.
    Other(Span),
}

/// What a token turned out to be, as a diagnostic names it.
#[derive(Clone, Copy, Debug, PartialEq, Eq, Structural)]
pub enum Found {
    ByteStr,
    Int(u64),
    Char,
    Str,
    Separator,
    Group(Delim),
    Reference,
    Other,
}

/// The literal kind that a position asked for.
#[derive(Clone, Copy, Debug, PartialEq, Eq, Structural)]
pub enum Expected {
    ByteStr,
    UnsignedByte,
}

#[derive(Clone, Copy, Debug, PartialEq, Eq, Structural)]
pub enum ErrorKind {
    /// The token is not the literal kind that its position needs, or an
    /// integer does not fit in a byte.
    Type { expected: Expected, found: Found },
    /// Values and commas do not alternate; `arg` is the zero-based index of
    /// the argument at which that shows.
    Separator { arg: usize },
    /// The token is of a kind that cannot be evaluated to bytes.
    Unsupported { found: Found },
    /// An argument list that needs at least one argument is empty.
    Arity,
}

/// The one failure report of an evaluation.
#[derive(Clone, Copy, Debug, PartialEq, Eq, Structural)]
pub struct Diagnostic {
    pub span: Span,
    pub kind: ErrorKind,
}

pub open spec fn span_of(t: Token) -> Span {
    match t {
        Token::Literal(sp, _) => sp,
        Token::Separator(sp) => sp,
        Token::Group(sp, _, _) => sp,
        Token::Reference(sp, _) => sp,
        Token::Other(sp) => sp,
    }
}

pub open spec fn found_of(t: Token) -> Found {
    match t {
        Token::Literal(_, Lit::ByteStr(_)) => Found::ByteStr,
        Token::Literal(_, Lit::Int(n)) => Found::Int(n),
        Token::Literal(_, Lit::Char(_)) => Found::Char,
        Token::Literal(_, Lit::Str(_)) => Found::Str,
        Token::Separator(_) => Found::Separator,
        Token::Group(_, d, _) => Found::Group(d),
        Token::Reference(_, _) => Found::Reference,
        Token::Other(_) => Found::Other,
    }
}

pub open spec fn is_separator(t: Token) -> bool {
    t is Separator
}

impl Token {
    pub fn span(&self) -> (r: Span)
        ensures
            r == span_of(*self),
    {
        match self {
            Token::Literal(sp, _) => *sp,
            Token::Separator(sp) => *sp,
            Token::Group(sp, _, _) => *sp,
            Token::Reference(sp, _) => *sp,
            Token::Other(sp) => *sp,
        }
    }

    pub fn found(&self) -> (r: Found)
        ensures
            r == found_of(*self),
    {
        match self {
            Token::Literal(_, Lit::ByteStr(_)) => Found::ByteStr,
            Token::Literal(_, Lit::Int(n)) => Found::Int(*n),
            Token::Literal(_, Lit::Char(_)) => Found::Char,
            Token::Literal(_, Lit::Str(_)) => Found::Str,
            Token::Separator(_) => Found::Separator,
            Token::Group(_, d, _) => Found::Group(*d),
            Token::Reference(_, _) => Found::Reference,
            Token::Other(_) => Found::Other,
        }
    }

    pub fn is_separator(&self) -> (r: bool)
        ensures
            r == is_separator(*self),
    {
        match self {
            Token::Separator(_) => true,
            _ => false,
        }
    }
}

} // verus!
