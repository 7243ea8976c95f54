//! Tokens handed over by the lexer, and the cursor the parser pulls them from.
use vstd::prelude::*;

verus! {

/// A start/end byte-offset range into the source text.
#[derive(Clone, Copy, Debug, PartialEq, Eq, Structural)]
pub struct Span {
    pub start: usize,
    pub end: usize,
}

impl Span {
    pub fn new(start: usize, end: usize) -> (r: Span)
        ensures
            r.start == start,
            r.end == end,
    {
        Span { start, end }
    }
}

/// The three-state truth value of the language.
#[derive(Clone, Copy, Debug, PartialEq, Eq, Structural)]
pub enum Abool {
    Never,
    Sometimes,
    Always,
}

/// A lexical token.
#[derive(Debug, PartialEq, Eq)]
pub enum Token {
    Boolean(bool),
    Integer(i32),
    String(String),
    Aboolean(Abool),
    Identifier(String),
    Nul,
    LogNot,
    LeftParenthesis,
    RightParenthesis,
    Comma,
    Semicolon,
    Print,
    Assignment,
    Addition,
    Subtract,
    Multiply,
    Divide,
    OpLt,
    OpGt,
    OpEq,
    OpNeq,
    LogAnd,
    LogOr,
}

impl Clone for Token {
    fn clone(&self) -> (r: Token)
        ensures
            r == *self,
    {
        match self {
            Token::Boolean(b) => Token::Boolean(*b),
            Token::Integer(i) => Token::Integer(*i),
            Token::String(s) => Token::String(s.clone()),
            Token::Aboolean(a) => Token::Aboolean(*a),
            Token::Identifier(s) => Token::Identifier(s.clone()),
            Token::Nul => Token::Nul,
            Token::LogNot => Token::LogNot,
            Token::LeftParenthesis => Token::LeftParenthesis,
            Token::RightParenthesis => Token::RightParenthesis,
            Token::Comma => Token::Comma,
            Token::Semicolon => Token::Semicolon,
            Token::Print => Token::Print,
            Token::Assignment => Token::Assignment,
            Token::Addition => Token::Addition,
            Token::Subtract => Token::Subtract,
            Token::Multiply => Token::Multiply,
            Token::Divide => Token::Divide,
            Token::OpLt => Token::OpLt,
            Token::OpGt => Token::OpGt,
            Token::OpEq => Token::OpEq,
            Token::OpNeq => Token::OpNeq,
            Token::LogAnd => Token::LogAnd,
            Token::LogOr => Token::LogOr,
        }
    }
}

/// A token together with where it stands in the source.
#[derive(Debug, PartialEq, Eq)]
pub struct SpannedToken {
    pub token: Token,
    pub span: Span,
}

impl Clone for SpannedToken {
    fn clone(&self) -> (r: SpannedToken)
        ensures
            r == *self,
    {
        SpannedToken { token: self.token.clone(), span: self.span }
    }
}

impl SpannedToken {
    pub fn new(token: Token, span: Span) -> (r: SpannedToken)
        ensures
            r.token == token,
            r.span == span,
    {
        SpannedToken { token, span }
    }
}

/// A pull cursor over the lexer's output: `peek` looks at the next token,
/// `next` consumes it.
pub struct TokenStream {
    tokens: Vec<SpannedToken>,
    pos: usize,
    source_len: usize,
}

impl TokenStream {
    /// All tokens of the source, in order.
    pub closed spec fn tokens(&self) -> Seq<SpannedToken> {
        self.tokens@
    }

    /// How many tokens have been consumed.
    pub closed spec fn pos(&self) -> int {
        self.pos as int
    }

    /// The length of the source text in bytes.
    pub closed spec fn source_len(&self) -> usize {
        self.source_len
    }

    pub open spec fn wf(&self) -> bool {
        0 <= self.pos() <= self.tokens().len()
    }

    /// The token at index `i`, or `None` past the end.
    pub open spec fn token_at(&self, i: int) -> Option<SpannedToken> {
        if 0 <= i < self.tokens().len() {
            Some(self.tokens()[i])
        } else {
            None
        }
    }

    pub fn new(tokens: Vec<SpannedToken>, source_len: usize) -> (r: TokenStream)
        ensures
            r.wf(),
            r.tokens() == tokens@,
            r.pos() == 0,
            r.source_len() == source_len,
    {
        TokenStream { tokens, pos: 0, source_len }
    }

    /// The next token, without consuming it.
    pub fn peek(&self) -> (r: Option<SpannedToken>)
        requires
            self.wf(),
        ensures
            r == self.token_at(self.pos()),
    {
        if self.pos < self.tokens.len() {
            Some(self.tokens[self.pos].clone())
        } else {
            None
        }
    }

    /// Consumes and returns the next token; at the end nothing moves.
    pub fn next(&mut self) -> (r: Option<SpannedToken>)
        requires
            old(self).wf(),
        ensures
            final(self).wf(),
            final(self).tokens() == old(self).tokens(),
            final(self).source_len() == old(self).source_len(),
            r == old(self).token_at(old(self).pos()),
            final(self).pos() == if old(self).pos() < old(self).tokens().len() {
                old(self).pos() + 1
            } else {
                old(self).pos()
            },
    {
        if self.pos < self.tokens.len() {
            let t = self.tokens[self.pos].clone();
            self.pos = self.pos + 1;
            Some(t)
        } else {
            None
        }
    }

    /// The span of the token consumed last, or an empty span at the start.
    pub fn span(&self) -> (r: Span)
        requires
            self.wf(),
        ensures
            r == if self.pos() > 0 {
                self.tokens()[self.pos() - 1].span
            } else {
                Span { start: 0, end: 0 }
            },
    {
        if self.pos > 0 {
            self.tokens[self.pos - 1].span
        } else {
            Span { start: 0, end: 0 }
        }
    }

    /// The empty span at the end of the source.
    pub fn end_span(&self) -> (r: Span)
        ensures
            r == (Span { start: self.source_len(), end: self.source_len() }),
    {
        Span { start: self.source_len, end: self.source_len }
    }
}

} // verus!
