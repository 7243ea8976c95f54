//! The parser: pulls tokens from a [`TokenStream`] and builds the tree,
//! verified against the grammar's spec functions.
use vstd::prelude::*;

use crate::ast::{
    exprs_view,
    BinOp,
    Expr,
    ExprKind,
    ExprView,
    Iden,
    NodeView,
    ParseNode,
    Stmt,
    Value,
};
use crate::error::{Error, ErrorKind};
use crate::grammar::{
    assignment,
    binop_of,
    call,
    call_args,
    fold_assign,
    fold_paren,
    fold_stmt,
    operation,
    paren,
    primary,
    program,
    rest,
    semicolon,
    stmt,
};
use crate::theme::themed;
use crate::token::{Span, SpannedToken, Token, TokenStream};

verus! {

pub open spec fn expr_result(r: Result<Expr, Error>) -> Result<ExprView, Error> {
    match r {
        Ok(e) => Ok(e@),
        Err(x) => Err(x),
    }
}

pub open spec fn node_result(r: Result<ParseNode, Error>) -> Result<NodeView, Error> {
    match r {
        Ok(n) => Ok(n@),
        Err(x) => Err(x),
    }
}

pub open spec fn nodes_result(r: Result<Vec<ParseNode>, Error>) -> Result<Seq<NodeView>, Error> {
    match r {
        Ok(ns) => Ok(ns@.map_values(|n: ParseNode| n@)),
        Err(x) => Err(x),
    }
}

/// The infix operator a token stands for, if any.
pub fn operator(tok: &Token) -> (r: Option<BinOp>)
    ensures
        r == binop_of(*tok),
{
    match tok {
        Token::Addition => Some(BinOp::Add),
        Token::Subtract => Some(BinOp::Subtract),
        Token::Multiply => Some(BinOp::Multiply),
        Token::Divide => Some(BinOp::Divide),
        Token::OpLt => Some(BinOp::Lt),
        Token::OpGt => Some(BinOp::Gt),
        Token::OpEq => Some(BinOp::Eq),
        Token::OpNeq => Some(BinOp::Neq),
        Token::LogAnd => Some(BinOp::And),
        Token::LogOr => Some(BinOp::Or),
        _ => None,
    }
}

/// A parser over one source's tokens. The themed mode is fixed when the
/// parser is made.
pub struct Parser {
    lexer: TokenStream,
    themed: bool,
}

impl Parser {
    pub closed spec fn toks(&self) -> Seq<SpannedToken> {
        self.lexer.tokens()
    }

    pub closed spec fn end(&self) -> usize {
        self.lexer.source_len()
    }

    pub closed spec fn pos(&self) -> int {
        self.lexer.pos()
    }

    /// Whether "lang" is rewritten to "script" in names and strings.
    pub closed spec fn themed(&self) -> bool {
        self.themed
    }

    pub closed spec fn wf(&self) -> bool {
        self.lexer.wf()
    }

    pub open spec fn same_input(&self, o: Parser) -> bool {
        &&& self.toks() == o.toks()
        &&& self.end() == o.end()
        &&& self.themed() == o.themed()
    }

    pub open spec fn token_at(&self, i: int) -> Option<SpannedToken> {
        if 0 <= i < self.toks().len() {
            Some(self.toks()[i])
        } else {
            None
        }
    }

    /// `token` is what the last fetch returned: the token just consumed,
    /// or nothing at the end of input.
    pub open spec fn fetched(&self, token: Option<SpannedToken>) -> bool {
        match token {
            Some(st) => 1 <= self.pos() <= self.toks().len() && st == self.toks()[self.pos() - 1],
            None => self.pos() == self.toks().len(),
        }
    }

    /// The index of a fetched token (the length for none).
    pub open spec fn index_of(&self, token: Option<SpannedToken>) -> int {
        if token is Some {
            self.pos() - 1
        } else {
            self.toks().len() as int
        }
    }

    pub open spec fn primary_at(&self, i: int) -> (Result<ExprView, Error>, nat) {
        primary(self.toks(), self.end(), self.themed(), i)
    }

    pub open spec fn paren_at(&self, i: int) -> (Result<ExprView, Error>, nat) {
        paren(self.toks(), self.end(), self.themed(), i)
    }

    pub open spec fn fold_paren_at(&self, i: int, acc: ExprView) -> (Result<ExprView, Error>, nat) {
        fold_paren(self.toks(), self.end(), self.themed(), i, acc)
    }

    pub open spec fn operation_at(&self, i: int, left: ExprView) -> (Result<ExprView, Error>, nat) {
        operation(self.toks(), self.end(), self.themed(), i, left)
    }

    pub open spec fn fold_stmt_at(&self, i: int, acc: ExprView) -> (Result<NodeView, Error>, nat) {
        fold_stmt(self.toks(), self.end(), self.themed(), i, acc)
    }

    pub open spec fn fold_assign_at(&self, i: int, acc: ExprView) -> (Result<ExprView, Error>, nat) {
        fold_assign(self.toks(), self.end(), self.themed(), i, acc)
    }

    pub open spec fn call_args_at(&self, k: int, args: Seq<ExprView>) -> (
        Result<Seq<ExprView>, Error>,
        nat,
    ) {
        call_args(self.toks(), self.end(), self.themed(), k, args)
    }

    pub open spec fn call_at(&self, i: int) -> (Result<NodeView, Error>, nat) {
        call(self.toks(), self.end(), self.themed(), i)
    }

    pub open spec fn assignment_at(&self, i: int) -> (Result<NodeView, Error>, nat) {
        assignment(self.toks(), self.end(), self.themed(), i)
    }

    pub open spec fn stmt_at(&self, i: int) -> (Result<NodeView, Error>, nat) {
        stmt(self.toks(), self.end(), self.themed(), i)
    }

    pub open spec fn program_from(&self, i: int) -> Result<Seq<NodeView>, Error> {
        program(self.toks(), self.end(), self.themed(), i, Seq::empty())
    }

    /// A parser at the start of `tokens`, lexed from a source of
    /// `source_len` bytes.
    pub fn new(tokens: Vec<SpannedToken>, source_len: usize, themed: bool) -> (r: Parser)
        ensures
            r.wf(),
            r.toks() == tokens@,
            r.end() == source_len,
            r.themed() == themed,
            r.pos() == 0,
    {
        Parser { lexer: TokenStream::new(tokens, source_len), themed }
    }

    /// Reads one primary expression from a fetched token: a literal, a name,
    /// a negation of one primary, or a parenthesised group.
    pub fn parse_expr(&mut self, token: Option<SpannedToken>) -> (r: Result<Expr, Error>)
        requires
            old(self).wf(),
            old(self).fetched(token),
        ensures
            final(self).wf(),
            final(self).same_input(*old(self)),
            expr_result(r) == old(self).primary_at(old(self).index_of(token)).0,
            r is Ok ==> final(self).pos() == old(self).index_of(token) + 1 + old(self).primary_at(
                old(self).index_of(token),
            ).1,
        decreases rest(old(self).toks(), old(self).index_of(token)), 2nat,
    {
        let st = match token {
            Some(st) => st,
            None => return Err(Error::end_of_token_stream(self.lexer.end_span())),
        };
        let span = st.span;
        match st.token {
            Token::Boolean(b) => Ok(Expr { kind: ExprKind::Literal(Value::Bool(b)), span }),
            Token::Integer(i) => Ok(Expr { kind: ExprKind::Literal(Value::Int(i)), span }),
            Token::String(s) => Ok(
                Expr { kind: ExprKind::Literal(Value::Str(themed(self.themed, s))), span },
            ),
            Token::Aboolean(a) => Ok(Expr { kind: ExprKind::Literal(Value::Abool(a)), span }),
            Token::Identifier(name) => Ok(
                Expr { kind: ExprKind::Identifier(Iden(themed(self.themed, name))), span },
            ),
            Token::Nul => Ok(Expr { kind: ExprKind::Literal(Value::Nul), span }),
            Token::LogNot => {
                let next = self.lexer.next();
                match self.parse_expr(next) {
                    Ok(expr) => {
                        let end = expr.span.end;
                        Ok(Expr { kind: ExprKind::Not(Box::new(expr)), span: Span { start: span.start, end } })
                    },
                    Err(x) => Err(x),
                }
            },
            Token::LeftParenthesis => self.parse_paren(),
            _ => Err(Error::unexpected_token(span)),
        }
    }

    /// Reads a parenthesised group after its opening parenthesis: a primary,
    /// then operators folded in until a right parenthesis or the end of
    /// input, which is tolerated.
    pub fn parse_paren(&mut self) -> (r: Result<Expr, Error>)
        requires
            old(self).wf(),
        ensures
            final(self).wf(),
            final(self).same_input(*old(self)),
            expr_result(r) == old(self).paren_at(old(self).pos()).0,
            r is Ok ==> final(self).pos() == old(self).pos() + 1 + old(self).paren_at(
                old(self).pos(),
            ).1,
        decreases rest(old(self).toks(), old(self).pos()), 4nat,
    {
        let ghost j = self.pos();
        let next = self.lexer.next();
        let mut buf = match self.parse_expr(next) {
            Ok(e) => e,
            Err(x) => return Err(x),
        };
        let ghost start = self.pos();
        let ghost first = buf@;
        loop
            invariant
                self.wf(),
                self.same_input(*old(self)),
                j == old(self).pos(),
                j < start <= self.pos(),
                start == j + 1 + old(self).primary_at(j).1,
                first == old(self).primary_at(j).0->Ok_0,
                old(self).primary_at(j).0 is Ok,
                self.fold_paren_at(self.pos(), buf@).0 == self.fold_paren_at(start, first).0,
                self.pos() + self.fold_paren_at(self.pos(), buf@).1 == start + self.fold_paren_at(
                    start,
                    first,
                ).1,
            decreases self.toks().len() - self.pos(),
        {
            let peek = self.lexer.peek();
            match peek {
                Some(st) => {
                    if matches!(st.token, Token::RightParenthesis) {
                        self.lexer.next();
                        return Ok(buf);
                    }
                    buf = match self.parse_operation(Some(st), buf) {
                        Ok(e) => e,
                        Err(x) => return Err(x),
                    };
                },
                None => return Ok(buf),
            }
        }
    }

    /// One fold step: consumes the peeked operator and the primary after
    /// it, and combines them with `left`.
    pub fn parse_operation(&mut self, token: Option<SpannedToken>, left: Expr) -> (r: Result<
        Expr,
        Error,
    >)
        requires
            old(self).wf(),
            token == old(self).token_at(old(self).pos()),
        ensures
            final(self).wf(),
            final(self).same_input(*old(self)),
            expr_result(r) == old(self).operation_at(old(self).pos(), left@).0,
            r is Ok ==> final(self).pos() == old(self).pos() + 1 + old(self).operation_at(
                old(self).pos(),
                left@,
            ).1,
        decreases rest(old(self).toks(), old(self).pos()), 1nat,
    {
        match token {
            Some(st) => match operator(&st.token) {
                Some(op) => {
                    self.lexer.next();
                    let next = self.lexer.next();
                    match self.parse_expr(next) {
                        Ok(right) => Ok(Expr::binary(op, left, right)),
                        Err(x) => Err(x),
                    }
                },
                None => Err(Error::unexpected_token(st.span)),
            },
            None => Err(Error::end_of_token_stream(self.lexer.end_span())),
        }
    }
}

impl Parser {
    /// Consumes the next token, which must be a semicolon.
    pub fn require_semicolon(&mut self) -> (r: Result<(), Error>)
        requires
            old(self).wf(),
        ensures
            final(self).wf(),
            final(self).same_input(*old(self)),
            r == semicolon(old(self).toks(), old(self).end(), old(self).pos()),
            r is Ok ==> final(self).pos() == old(self).pos() + 1,
    {
        match self.lexer.next() {
            Some(st) => if matches!(st.token, Token::Semicolon) {
                Ok(())
            } else {
                Err(Error::unexpected_token(st.span))
            },
            None => Err(Error::end_of_token_stream(self.lexer.end_span())),
        }
    }

    /// Reads one statement from its fetched first token. A following left
    /// parenthesis makes it a call, a following assignment operator an
    /// assignment; otherwise it is an expression, folded left to right until
    /// a print keyword (then a semicolon) or the end of input.
    pub fn parse_ops(&mut self, token: SpannedToken) -> (r: Result<ParseNode, Error>)
        requires
            old(self).wf(),
            old(self).fetched(Some(token)),
        ensures
            final(self).wf(),
            final(self).same_input(*old(self)),
            node_result(r) == old(self).stmt_at(old(self).pos() - 1).0,
            r is Ok ==> final(self).pos() == old(self).pos() + old(self).stmt_at(
                old(self).pos() - 1,
            ).1,
    {
        let ghost i = self.pos() - 1;
        let peek = self.lexer.peek();
        match peek {
            Some(st) => {
                if matches!(st.token, Token::LeftParenthesis) {
                    return self.fn_call(token);
                }
                if matches!(st.token, Token::Assignment) {
                    return self.parse_assignment(token);
                }
            },
            None => {},
        }
        let mut buf = match self.parse_expr(Some(token)) {
            Ok(e) => e,
            Err(x) => return Err(x),
        };
        let ghost start = self.pos();
        let ghost first = buf@;
        loop
            invariant
                self.wf(),
                self.same_input(*old(self)),
                i == old(self).pos() - 1,
                old(self).stmt_at(i).0 == self.fold_stmt_at(start, first).0,
                old(self).stmt_at(i).1 == start - i - 1 + self.fold_stmt_at(start, first).1,
                start <= self.pos(),
                self.fold_stmt_at(self.pos(), buf@).0 == self.fold_stmt_at(start, first).0,
                self.pos() + self.fold_stmt_at(self.pos(), buf@).1 == start + self.fold_stmt_at(
                    start,
                    first,
                ).1,
            decreases self.toks().len() - self.pos(),
        {
            let peek = self.lexer.peek();
            match peek {
                Some(st) => {
                    if matches!(st.token, Token::Print) {
                        self.lexer.next();
                        return match self.require_semicolon() {
                            Ok(()) => Ok(ParseNode::Stmt(Stmt::Print(buf))),
                            Err(x) => Err(x),
                        };
                    }
                    buf = match self.parse_operation(Some(st), buf) {
                        Ok(e) => e,
                        Err(x) => return Err(x),
                    };
                },
                None => return Ok(ParseNode::Expr(buf)),
            }
        }
    }

    /// Reads an assignment from its target token: the value is a primary
    /// with operators folded in, and only a semicolon ends it.
    pub fn parse_assignment(&mut self, token: SpannedToken) -> (r: Result<ParseNode, Error>)
        requires
            old(self).wf(),
            old(self).fetched(Some(token)),
            old(self).token_at(old(self).pos()) matches Some(st) && st.token is Assignment,
        ensures
            final(self).wf(),
            final(self).same_input(*old(self)),
            node_result(r) == old(self).assignment_at(old(self).pos() - 1).0,
            r is Ok ==> final(self).pos() == old(self).pos() + old(self).assignment_at(
                old(self).pos() - 1,
            ).1,
    {
        let ghost i = self.pos() - 1;
        self.lexer.next();
        let iden = match token.token {
            Token::Identifier(name) => Iden(name),
            _ => return Err(Error::new(ErrorKind::InvalidIdentifier, Some(self.lexer.span()))),
        };
        let next = self.lexer.next();
        let mut value = match self.parse_expr(next) {
            Ok(e) => e,
            Err(x) => return Err(x),
        };
        let ghost start = self.pos();
        let ghost first = value@;
        loop
            invariant
                self.wf(),
                self.same_input(*old(self)),
                i == old(self).pos() - 1,
                start == i + 3 + old(self).primary_at(i + 2).1,
                old(self).primary_at(i + 2).0 == Ok::<ExprView, Error>(first),
                iden.0@ == old(self).toks()[i].token->Identifier_0@,
                old(self).toks()[i].token is Identifier,
                start <= self.pos(),
                self.fold_assign_at(self.pos(), value@).0 == self.fold_assign_at(start, first).0,
                self.pos() + self.fold_assign_at(self.pos(), value@).1 == start
                    + self.fold_assign_at(start, first).1,
            decreases self.toks().len() - self.pos(),
        {
            let peek = self.lexer.peek();
            match peek {
                Some(st) => {
                    if matches!(st.token, Token::Semicolon) {
                        self.lexer.next();
                        return Ok(ParseNode::Stmt(Stmt::VarAssignment { iden, value }));
                    }
                    value = match self.parse_operation(Some(st), value) {
                        Ok(e) => e,
                        Err(x) => return Err(x),
                    };
                },
                None => return Err(Error::new(ErrorKind::EndOfTokenStream, Some(self.lexer.span()))),
            }
        }
    }

    /// Reads a call from its callee token: each argument is one primary,
    /// followed by a comma or the closing parenthesis; a semicolon ends the
    /// statement.
    pub fn fn_call(&mut self, token: SpannedToken) -> (r: Result<ParseNode, Error>)
        requires
            old(self).wf(),
            old(self).fetched(Some(token)),
            old(self).token_at(old(self).pos()) matches Some(st) && st.token is LeftParenthesis,
        ensures
            final(self).wf(),
            final(self).same_input(*old(self)),
            node_result(r) == old(self).call_at(old(self).pos() - 1).0,
            r is Ok ==> final(self).pos() == old(self).pos() + old(self).call_at(
                old(self).pos() - 1,
            ).1,
    {
        let ghost i = self.pos() - 1;
        let iden = match token.token {
            Token::Identifier(name) => Iden(name),
            _ => return Err(Error::new(ErrorKind::InvalidIdentifier, Some(self.lexer.span()))),
        };
        self.lexer.next();
        let mut args: Vec<Expr> = Vec::new();
        assert(exprs_view(args@) =~= Seq::<ExprView>::empty());
        loop
            invariant_except_break
                i + 2 <= self.pos(),
                self.call_args_at(self.pos(), exprs_view(args@)).0 == self.call_args_at(
                    i + 2,
                    Seq::empty(),
                ).0,
                self.pos() + self.call_args_at(self.pos(), exprs_view(args@)).1 == i + 2
                    + self.call_args_at(i + 2, Seq::empty()).1,
            invariant
                self.wf(),
                self.same_input(*old(self)),
                i == old(self).pos() - 1,
                old(self).toks()[i].token is Identifier,
                iden.0@ == old(self).toks()[i].token->Identifier_0@,
            ensures
                i + 2 <= self.pos(),
                self.call_args_at(i + 2, Seq::empty()) == (
                    Ok::<Seq<ExprView>, Error>(exprs_view(args@)),
                    (self.pos() - i - 2) as nat,
                ),
            decreases self.toks().len() - self.pos(),
        {
            let next = self.lexer.next();
            let closing = match &next {
                Some(st) => matches!(st.token, Token::RightParenthesis),
                None => false,
            };
            if closing {
                break;
            }
            let e = match self.parse_expr(next) {
                Ok(e) => e,
                Err(x) => return Err(x),
            };
            let ghost before = args@;
            args.push(e);
            assert(exprs_view(args@) =~= exprs_view(before).push(e@));
            match self.lexer.next() {
                Some(st) => {
                    if matches!(st.token, Token::RightParenthesis) {
                        break;
                    }
                    if !matches!(st.token, Token::Comma) {
                        return Err(Error::new(ErrorKind::UnexpectedToken, None));
                    }
                },
                None => return Err(Error::new(ErrorKind::UnexpectedToken, None)),
            }
        }
        match self.require_semicolon() {
            Ok(()) => Ok(ParseNode::Stmt(Stmt::FunctionCall { iden, args })),
            Err(x) => Err(x),
        }
    }

    /// Parses every statement from the current position to the end of
    /// input, stopping at the first error.
    pub fn parse(&mut self) -> (r: Result<Vec<ParseNode>, Error>)
        requires
            old(self).wf(),
        ensures
            final(self).wf(),
            final(self).same_input(*old(self)),
            nodes_result(r) == old(self).program_from(old(self).pos()),
    {
        let mut nodes: Vec<ParseNode> = Vec::new();
        assert(nodes@.map_values(|n: ParseNode| n@) =~= Seq::<NodeView>::empty());
        loop
            invariant
                self.wf(),
                self.same_input(*old(self)),
                program(self.toks(), self.end(), self.themed(), self.pos(), nodes@.map_values(
                    |n: ParseNode| n@,
                )) == old(self).program_from(old(self).pos()),
            decreases self.toks().len() - self.pos(),
        {
            match self.lexer.next() {
                Some(token) => {
                    let node = match self.parse_ops(token) {
                        Ok(n) => n,
                        Err(x) => return Err(x),
                    };
                    let ghost before = nodes@;
                    nodes.push(node);
                    assert(nodes@.map_values(|n: ParseNode| n@) =~= before.map_values(
                        |n: ParseNode| n@,
                    ).push(node@));
                },
                None => return Ok(nodes),
            }
        }
    }
}

} // verus!
