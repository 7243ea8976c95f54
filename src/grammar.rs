//! The grammar, as spec functions over the token sequence.
//!
//! Each reader takes the tokens `t`, the source length `end` (where an
//! end-of-input error points), the themed mode `th` and the index `i` where
//! it starts. It returns its result and a count of the tokens it consumed;
//! the count is only meaningful on success.
use vstd::prelude::*;

use crate::ast::{BinOp, ExprKindView, ExprView, NodeView, StmtView, ValueView};
use crate::error::{Error, ErrorKind};
use crate::theme::themed_text;
use crate::token::{Span, SpannedToken, Token};

verus! {

pub open spec fn eos(end: usize) -> Error {
    Error { kind: ErrorKind::EndOfTokenStream, span: Some(Span { start: end, end }) }
}

pub open spec fn unexpected(span: Span) -> Error {
    Error { kind: ErrorKind::UnexpectedToken, span: Some(span) }
}

pub open spec fn invalid_identifier(span: Span) -> Error {
    Error { kind: ErrorKind::InvalidIdentifier, span: Some(span) }
}

/// The infix operator a token stands for, if any.
pub open spec fn binop_of(tok: Token) -> Option<BinOp> {
    match tok {
        Token::Addition => Some(BinOp::Add),
        Token::Subtract => Some(BinOp::Subtract),
        Token::Multiply => Some(BinOp::Multiply),
        Token::Divide => Some(BinOp::Divide),
        Token::OpLt => Some(BinOp::Lt),
        Token::OpGt => Some(BinOp::Gt),
        Token::OpEq => Some(BinOp::Eq),
        Token::OpNeq => Some(BinOp::Neq),
        Token::LogAnd => Some(BinOp::And),
        Token::LogOr => Some(BinOp::Or),
        _ => None,
    }
}

/// The value a literal token carries, if it is one.
pub open spec fn literal_of(tok: Token, th: bool) -> Option<ValueView> {
    match tok {
        Token::Boolean(b) => Some(ValueView::Bool(b)),
        Token::Integer(n) => Some(ValueView::Int(n)),
        Token::String(s) => Some(ValueView::Str(themed_text(th, s@))),
        Token::Aboolean(a) => Some(ValueView::Abool(a)),
        Token::Nul => Some(ValueView::Nul),
        _ => None,
    }
}

/// How many tokens remain from index `i`.
pub open spec fn rest(t: Seq<SpannedToken>, i: int) -> int {
    if i < t.len() {
        t.len() - i
    } else {
        0
    }
}

pub open spec fn is_token(t: Seq<SpannedToken>, i: int, tok: Token) -> bool {
    0 <= i < t.len() && t[i].token == tok
}

/// A primary expression whose token is at `i` (none when `i` is past the
/// end). The count is of the tokens consumed after the one at `i`.
pub open spec fn primary(t: Seq<SpannedToken>, end: usize, th: bool, i: int) -> (Result<
    ExprView,
    Error,
>, nat)
    decreases rest(t, i), 2nat,
{
    if i < 0 || i >= t.len() {
        (Err(eos(end)), 0)
    } else {
        let span = t[i].span;
        match t[i].token {
            Token::Identifier(name) => (
                Ok(ExprView { kind: ExprKindView::Identifier(themed_text(th, name@)), span }),
                0,
            ),
            Token::LogNot => {
                let (r, n) = primary(t, end, th, i + 1);
                match r {
                    Ok(e) => (
                        Ok(
                            ExprView {
                                kind: ExprKindView::Not(Box::new(e)),
                                span: Span { start: span.start, end: e.span.end },
                            },
                        ),
                        n + 1,
                    ),
                    Err(x) => (Err(x), 0),
                }
            },
            Token::LeftParenthesis => {
                let (r, n) = paren(t, end, th, i + 1);
                (r, n + 1)
            },
            tok => match literal_of(tok, th) {
                Some(v) => (Ok(ExprView { kind: ExprKindView::Literal(v), span }), 0),
                None => (Err(unexpected(span)), 0),
            },
        }
    }
}

/// The inside of a parenthesised group whose first token is at `j`: a
/// primary, then operators folded in until a right parenthesis (consumed)
/// or the end of input. The count is of the tokens after the one at `j`.
pub open spec fn paren(t: Seq<SpannedToken>, end: usize, th: bool, j: int) -> (Result<
    ExprView,
    Error,
>, nat)
    decreases rest(t, j), 4nat,
{
    let (r, n) = primary(t, end, th, j);
    match r {
        Ok(e) => {
            let (r2, m) = fold_paren(t, end, th, j + 1 + n, e);
            (r2, n + m)
        },
        Err(x) => (Err(x), 0),
    }
}

/// The fold loop of a group, from index `i` with `acc` built so far. The
/// count is of all the tokens it consumed.
pub open spec fn fold_paren(
    t: Seq<SpannedToken>,
    end: usize,
    th: bool,
    i: int,
    acc: ExprView,
) -> (Result<ExprView, Error>, nat)
    decreases rest(t, i), 3nat,
{
    if i < 0 || i >= t.len() {
        (Ok(acc), 0)
    } else if t[i].token is RightParenthesis {
        (Ok(acc), 1)
    } else {
        let (r, n) = operation(t, end, th, i, acc);
        match r {
            Ok(e) => {
                let (r2, m) = fold_paren(t, end, th, i + 1 + n, e);
                (r2, 1 + n + m)
            },
            Err(x) => (Err(x), 0),
        }
    }
}

/// One fold step: the operator at `i` and the primary after it, combined
/// with `left`. The count is of the tokens after the operator.
pub open spec fn operation(
    t: Seq<SpannedToken>,
    end: usize,
    th: bool,
    i: int,
    left: ExprView,
) -> (Result<ExprView, Error>, nat)
    decreases rest(t, i), 1nat,
{
    if i < 0 || i >= t.len() {
        (Err(eos(end)), 0)
    } else {
        match binop_of(t[i].token) {
            Some(op) => {
                let (r, n) = primary(t, end, th, i + 1);
                match r {
                    Ok(right) => (Ok(ExprView::binary(op, left, right)), n + 1),
                    Err(x) => (Err(x), 0),
                }
            },
            None => (Err(unexpected(t[i].span)), 0),
        }
    }
}

/// A semicolon required at `i`.
pub open spec fn semicolon(t: Seq<SpannedToken>, end: usize, i: int) -> Result<(), Error> {
    if i < 0 || i >= t.len() {
        Err(eos(end))
    } else if t[i].token is Semicolon {
        Ok(())
    } else {
        Err(unexpected(t[i].span))
    }
}

/// The fold loop of an expression or print statement, from index `i` with
/// `acc` built so far. The count is of all the tokens it consumed.
pub open spec fn fold_stmt(t: Seq<SpannedToken>, end: usize, th: bool, i: int, acc: ExprView) -> (
    Result<NodeView, Error>,
    nat,
)
    decreases rest(t, i),
{
    if i < 0 || i >= t.len() {
        (Ok(NodeView::Expr(acc)), 0)
    } else if t[i].token is Print {
        match semicolon(t, end, i + 1) {
            Ok(_) => (Ok(NodeView::Stmt(StmtView::Print(acc))), 2),
            Err(x) => (Err(x), 0),
        }
    } else {
        let (r, n) = operation(t, end, th, i, acc);
        match r {
            Ok(e) => {
                let (r2, m) = fold_stmt(t, end, th, i + 1 + n, e);
                (r2, 1 + n + m)
            },
            Err(x) => (Err(x), 0),
        }
    }
}

/// The fold loop of an assignment's value, from index `i` with `acc` built so far: it ends only at a semicolon, which it consumes.
/// Input that ends first is reported at the last token consumed.
pub open spec fn fold_assign(
    t: Seq<SpannedToken>,
    end: usize,
    th: bool,
    i: int,
    acc: ExprView,
) -> (Result<ExprView, Error>, nat)
    decreases rest(t, i),
{
    if i < 0 || i >= t.len() {
        (Err(Error { kind: ErrorKind::EndOfTokenStream, span: Some(t[t.len() - 1].span) }), 0)
    } else if t[i].token is Semicolon {
        (Ok(acc), 1)
    } else {
        let (r, n) = operation(t, end, th, i, acc);
        match r {
            Ok(e) => {
                let (r2, m) = fold_assign(t, end, th, i + 1 + n, e);
                (r2, 1 + n + m)
            },
            Err(x) => (Err(x), 0),
        }
    }
}

pub open spec fn bad_separator() -> Error {
    Error { kind: ErrorKind::UnexpectedToken, span: None }
}

/// The argument list of a call from index `k` (just after the opening
/// parenthesis or a comma), with `args` read so far: each argument is one
/// primary, followed by a comma or the closing parenthesis. The count is of
/// all the tokens consumed, the closing parenthesis included.
pub open spec fn call_args(
    t: Seq<SpannedToken>,
    end: usize,
    th: bool,
    k: int,
    args: Seq<ExprView>,
) -> (Result<Seq<ExprView>, Error>, nat)
    decreases rest(t, k),
{
    if k < 0 || k >= t.len() {
        (Err(eos(end)), 0)
    } else if t[k].token is RightParenthesis {
        (Ok(args), 1)
    } else {
        let (r, n) = primary(t, end, th, k);
        match r {
            Ok(e) => {
                let s = k + 1 + n;
                if s >= t.len() {
                    (Err(bad_separator()), 0)
                } else if t[s].token is RightParenthesis {
                    (Ok(args.push(e)), n + 2)
                } else if t[s].token is Comma {
                    let (r2, m) = call_args(t, end, th, s + 1, args.push(e));
                    (r2, n + 2 + m)
                } else {
                    (Err(bad_separator()), 0)
                }
            },
            Err(x) => (Err(x), 0),
        }
    }
}

/// A function-call statement whose callee token is at `i`, with the opening
/// parenthesis at `i + 1`. The count is of the tokens after the callee.
pub open spec fn call(t: Seq<SpannedToken>, end: usize, th: bool, i: int) -> (Result<
    NodeView,
    Error,
>, nat) {
    match t[i].token {
        Token::Identifier(name) => {
            let (r, n) = call_args(t, end, th, i + 2, Seq::empty());
            match r {
                Ok(args) => match semicolon(t, end, i + 2 + n) {
                    Ok(_) => (
                        Ok(NodeView::Stmt(StmtView::FunctionCall { iden: name@, args })),
                        n + 2,
                    ),
                    Err(x) => (Err(x), 0),
                },
                Err(x) => (Err(x), 0),
            }
        },
        _ => (Err(invalid_identifier(t[i].span)), 0),
    }
}

/// An assignment whose target token is at `i`, with the assignment
/// operator at `i + 1`. The count is of the tokens after the target.
pub open spec fn assignment(t: Seq<SpannedToken>, end: usize, th: bool, i: int) -> (Result<
    NodeView,
    Error,
>, nat) {
    match t[i].token {
        Token::Identifier(name) => {
            let (r, n) = primary(t, end, th, i + 2);
            match r {
                Ok(e) => {
                    let (r2, m) = fold_assign(t, end, th, i + 3 + n, e);
                    match r2 {
                        Ok(value) => (
                            Ok(NodeView::Stmt(StmtView::VarAssignment { iden: name@, value })),
                            n + 2 + m,
                        ),
                        Err(x) => (Err(x), 0),
                    }
                },
                Err(x) => (Err(x), 0),
            }
        },
        _ => (Err(invalid_identifier(t[i + 1].span)), 0),
    }
}

/// The statement whose first token is at `i`: a call when a left
/// parenthesis follows, an assignment when the assignment operator follows,
/// and otherwise an expression, folded until a print keyword (then a
/// semicolon) or the end of input. The count is of the tokens after the one
/// at `i`.
pub open spec fn stmt(t: Seq<SpannedToken>, end: usize, th: bool, i: int) -> (Result<
    NodeView,
    Error,
>, nat) {
    if is_token(t, i + 1, Token::LeftParenthesis) {
        call(t, end, th, i)
    } else if is_token(t, i + 1, Token::Assignment) {
        assignment(t, end, th, i)
    } else {
        let (r, n) = primary(t, end, th, i);
        match r {
            Ok(e) => {
                let (r2, m) = fold_stmt(t, end, th, i + 1 + n, e);
                (r2, n + m)
            },
            Err(x) => (Err(x), 0),
        }
    }
}

/// The statements from index `i` to the end, appended to `done`.
pub open spec fn program(
    t: Seq<SpannedToken>,
    end: usize,
    th: bool,
    i: int,
    done: Seq<NodeView>,
) -> Result<Seq<NodeView>, Error>
    decreases rest(t, i),
{
    if i < 0 || i >= t.len() {
        Ok(done)
    } else {
        let (r, n) = stmt(t, end, th, i);
        match r {
            Ok(node) => program(t, end, th, i + 1 + n, done.push(node)),
            Err(x) => Err(x),
        }
    }
}

/// The whole token sequence parsed.
pub open spec fn parse_tokens(t: Seq<SpannedToken>, end: usize, th: bool) -> Result<
    Seq<NodeView>,
    Error,
> {
    program(t, end, th, 0, Seq::empty())
}

} // verus!
