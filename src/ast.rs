//! The syntax tree, and its mathematical view (names and strings as
//! character sequences) that the parser's contracts speak of.
use vstd::prelude::*;

use crate::token::{Abool, Span};

verus! {

/// A variable or function name.
#[derive(Debug, PartialEq, Eq)]
pub struct Iden(pub String);

/// A literal value.
#[derive(Debug, PartialEq, Eq)]
pub enum Value {
    Bool(bool),
    Int(i32),
    Str(String),
    Abool(Abool),
    Nul,
}

/// The ten binary operators.
#[derive(Clone, Copy, Debug, PartialEq, Eq, Structural)]
pub enum BinOp {
    Add,
    Subtract,
    Multiply,
    Divide,
    Lt,
    Gt,
    Eq,
    Neq,
    And,
    Or,
}

#[derive(Debug, PartialEq, Eq)]
pub struct Expr {
    pub kind: ExprKind,
    pub span: Span,
}

#[derive(Debug, PartialEq, Eq)]
pub enum ExprKind {
    Literal(Value),
    Identifier(Iden),
    Not(Box<Expr>),
    Binary { op: BinOp, left: Box<Expr>, right: Box<Expr> },
}

#[derive(Debug, PartialEq, Eq)]
pub enum Stmt {
    Print(Expr),
    VarAssignment { iden: Iden, value: Expr },
    FunctionCall { iden: Iden, args: Vec<Expr> },
}

/// What one statement of the source parses to: a statement, or an
/// expression standing alone.
#[derive(Debug, PartialEq, Eq)]
pub enum ParseNode {
    Stmt(Stmt),
    Expr(Expr),
}

pub enum ValueView {
    Bool(bool),
    Int(i32),
    Str(Seq<char>),
    Abool(Abool),
    Nul,
}

pub struct ExprView {
    pub kind: ExprKindView,
    pub span: Span,
}

pub enum ExprKindView {
    Literal(ValueView),
    Identifier(Seq<char>),
    Not(Box<ExprView>),
    Binary { op: BinOp, left: Box<ExprView>, right: Box<ExprView> },
}

pub enum StmtView {
    Print(ExprView),
    VarAssignment { iden: Seq<char>, value: ExprView },
    FunctionCall { iden: Seq<char>, args: Seq<ExprView> },
}

pub enum NodeView {
    Stmt(StmtView),
    Expr(ExprView),
}

pub open spec fn value_view(v: Value) -> ValueView {
    match v {
        Value::Bool(b) => ValueView::Bool(b),
        Value::Int(i) => ValueView::Int(i),
        Value::Str(s) => ValueView::Str(s@),
        Value::Abool(a) => ValueView::Abool(a),
        Value::Nul => ValueView::Nul,
    }
}

pub open spec fn expr_view(e: Expr) -> ExprView
    decreases e,
{
    ExprView {
        kind: match e.kind {
            ExprKind::Literal(v) => ExprKindView::Literal(value_view(v)),
            ExprKind::Identifier(i) => ExprKindView::Identifier(i.0@),
            ExprKind::Not(inner) => ExprKindView::Not(Box::new(expr_view(*inner))),
            ExprKind::Binary { op, left, right } => ExprKindView::Binary {
                op,
                left: Box::new(expr_view(*left)),
                right: Box::new(expr_view(*right)),
            },
        },
        span: e.span,
    }
}

pub open spec fn exprs_view(es: Seq<Expr>) -> Seq<ExprView> {
    es.map_values(|e: Expr| expr_view(e))
}

pub open spec fn stmt_view(s: Stmt) -> StmtView {
    match s {
        Stmt::Print(e) => StmtView::Print(expr_view(e)),
        Stmt::VarAssignment { iden, value } => StmtView::VarAssignment {
            iden: iden.0@,
            value: expr_view(value),
        },
        Stmt::FunctionCall { iden, args } => StmtView::FunctionCall {
            iden: iden.0@,
            args: exprs_view(args@),
        },
    }
}

pub open spec fn node_view(n: ParseNode) -> NodeView {
    match n {
        ParseNode::Stmt(s) => NodeView::Stmt(stmt_view(s)),
        ParseNode::Expr(e) => NodeView::Expr(expr_view(e)),
    }
}

impl View for Expr {
    type V = ExprView;

    open spec fn view(&self) -> ExprView {
        expr_view(*self)
    }
}

impl View for ParseNode {
    type V = NodeView;

    open spec fn view(&self) -> NodeView {
        node_view(*self)
    }
}

impl ExprView {
    /// A binary node; its span runs from the left operand's start to the
    /// right operand's end.
    pub open spec fn binary(op: BinOp, left: ExprView, right: ExprView) -> ExprView {
        ExprView {
            kind: ExprKindView::Binary { op, left: Box::new(left), right: Box::new(right) },
            span: Span { start: left.span.start, end: right.span.end },
        }
    }
}

impl Expr {
    pub fn binary(op: BinOp, left: Expr, right: Expr) -> (r: Expr)
        ensures
            r@ == ExprView::binary(op, left@, right@),
    {
        let span = Span { start: left.span.start, end: right.span.end };
        Expr { kind: ExprKind::Binary { op, left: Box::new(left), right: Box::new(right) }, span }
    }
}

} // verus!
