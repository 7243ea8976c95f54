//! Diagnostics: a kind and the span where the problem was found.
use vstd::prelude::*;

use crate::token::Span;

verus! {

#[derive(Clone, Copy, Debug, PartialEq, Eq, Structural)]
pub enum ErrorKind {
    /// A token stood where the grammar forbids it.
    UnexpectedToken,
    /// A call or assignment target was not an identifier.
    InvalidIdentifier,
    /// The input ended where a token was required.
    EndOfTokenStream,
}

/// A parse failure. The span is absent only where the parser cannot tell
/// which token was at fault (a bad separator in an argument list).
#[derive(Clone, Copy, Debug, PartialEq, Eq, Structural)]
pub struct Error {
    pub kind: ErrorKind,
    pub span: Option<Span>,
}

impl Error {
    pub fn new(kind: ErrorKind, span: Option<Span>) -> (r: Error)
        ensures
            r == (Error { kind, span }),
    {
        Error { kind, span }
    }

    pub fn unexpected_token(span: Span) -> (r: Error)
        ensures
            r == (Error { kind: ErrorKind::UnexpectedToken, span: Some(span) }),
    {
        Error { kind: ErrorKind::UnexpectedToken, span: Some(span) }
    }

    pub fn end_of_token_stream(span: Span) -> (r: Error)
        ensures
            r == (Error { kind: ErrorKind::EndOfTokenStream, span: Some(span) }),
    {
        Error { kind: ErrorKind::EndOfTokenStream, span: Some(span) }
    }
}

} // verus!
