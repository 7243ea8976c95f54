//! Properties of the grammar, proved over the spec functions that the
//! parser's contracts are stated in.
use vstd::prelude::*;

use crate::ast::{ExprKindView, ExprView, NodeView, StmtView};
use crate::error::{Error, ErrorKind};
use crate::grammar::{
    binop_of,
    call_args,
    fold_assign,
    fold_paren,
    fold_stmt,
    literal_of,
    operation,
    parse_tokens,
    primary,
    paren,
    program,
    rest,
    unexpected,
};
use crate::theme::{rewrite, themed_text};
use crate::token::{Span, SpannedToken, Token};

verus! {

/// The expression a single-token primary (a literal or a name) reads as.
pub open spec fn atom(st: SpannedToken, th: bool) -> Option<ExprView> {
    match st.token {
        Token::Identifier(name) => Some(
            ExprView { kind: ExprKindView::Identifier(themed_text(th, name@)), span: st.span },
        ),
        tok => match literal_of(tok, th) {
            Some(v) => Some(ExprView { kind: ExprKindView::Literal(v), span: st.span }),
            None => None,
        },
    }
}

pub open spec fn expr_stmt(e: ExprView) -> Result<Seq<NodeView>, Error> {
    Ok(seq![NodeView::Expr(e)])
}

proof fn lemma_atom_primary(t: Seq<SpannedToken>, end: usize, th: bool, i: int)
    requires
        0 <= i < t.len(),
        atom(t[i], th) is Some,
    ensures
        primary(t, end, th, i) == (Ok::<ExprView, Error>(atom(t[i], th)->Some_0), 0nat),
{
}

/// A lone literal parses to an expression statement whose value is the
/// literal's and whose span is the token's.
pub proof fn lemma_lone_literal(tok: SpannedToken, end: usize, th: bool)
    requires
        literal_of(tok.token, th) is Some,
    ensures
        parse_tokens(seq![tok], end, th) == expr_stmt(
            ExprView { kind: ExprKindView::Literal(literal_of(tok.token, th)->Some_0), span: tok.span },
        ),
{
    reveal_with_fuel(program, 2);
    let t = seq![tok];
    lemma_atom_primary(t, end, th, 0);
}

/// A lone name parses to a reference to it: rewritten in the themed mode,
/// untouched otherwise.
pub proof fn lemma_lone_name(tok: SpannedToken, end: usize)
    requires
        tok.token is Identifier,
    ensures
        parse_tokens(seq![tok], end, true) == expr_stmt(
            ExprView {
                kind: ExprKindView::Identifier(rewrite(tok.token->Identifier_0@)),
                span: tok.span,
            },
        ),
        parse_tokens(seq![tok], end, false) == expr_stmt(
            ExprView { kind: ExprKindView::Identifier(tok.token->Identifier_0@), span: tok.span },
        ),
{
    reveal_with_fuel(program, 2);
    lemma_atom_primary(seq![tok], end, true, 0);
    lemma_atom_primary(seq![tok], end, false, 0);
}

/// Operators fold strictly left to right, with no precedence:
/// `a OP1 b OP2 c` is `(a OP1 b) OP2 c`.
pub proof fn lemma_left_to_right(
    a: SpannedToken,
    o1: SpannedToken,
    b: SpannedToken,
    o2: SpannedToken,
    c: SpannedToken,
    end: usize,
    th: bool,
)
    requires
        atom(a, th) is Some,
        atom(b, th) is Some,
        atom(c, th) is Some,
        binop_of(o1.token) is Some,
        binop_of(o2.token) is Some,
    ensures
        parse_tokens(seq![a, o1, b, o2, c], end, th) == expr_stmt(
            ExprView::binary(
                binop_of(o2.token)->Some_0,
                ExprView::binary(
                    binop_of(o1.token)->Some_0,
                    atom(a, th)->Some_0,
                    atom(b, th)->Some_0,
                ),
                atom(c, th)->Some_0,
            ),
        ),
{
    reveal_with_fuel(program, 2);
    reveal_with_fuel(fold_stmt, 3);
    let t = seq![a, o1, b, o2, c];
    lemma_atom_primary(t, end, th, 0);
    lemma_atom_primary(t, end, th, 2);
    lemma_atom_primary(t, end, th, 4);
}

/// Without a semicolon after it, an assignment never parses.
pub proof fn lemma_assignment_needs_semicolon(t: Seq<SpannedToken>, end: usize, th: bool)
    requires
        t.len() >= 2,
        t[0].token is Identifier,
        t[1].token is Assignment,
        forall|k: int| 0 <= k < t.len() ==> !(#[trigger] t[k].token is Semicolon),
    ensures
        parse_tokens(t, end, th) is Err,
{
    let (r, n) = primary(t, end, th, 2);
    if r is Ok {
        lemma_fold_assign_fails(t, end, th, 3 + n as int, r->Ok_0);
    }
}

proof fn lemma_fold_assign_fails(t: Seq<SpannedToken>, end: usize, th: bool, i: int, acc: ExprView)
    requires
        i >= 0,
        forall|k: int| 0 <= k < t.len() ==> !(#[trigger] t[k].token is Semicolon),
    ensures
        fold_assign(t, end, th, i, acc).0 is Err,
    decreases rest(t, i),
{
    if i < t.len() {
        let (r, n) = operation(t, end, th, i, acc);
        if r is Ok {
            lemma_fold_assign_fails(t, end, th, i + 1 + n as int, r->Ok_0);
        }
    }
}

/// `x = v` with no semicolon fails because the input ended.
pub proof fn lemma_unterminated_assignment(
    x: SpannedToken,
    eq: SpannedToken,
    v: SpannedToken,
    end: usize,
    th: bool,
)
    requires
        x.token is Identifier,
        eq.token is Assignment,
        atom(v, th) is Some,
    ensures
        parse_tokens(seq![x, eq, v], end, th) matches Err(e) && e.kind == ErrorKind::EndOfTokenStream,
{
    let t = seq![x, eq, v];
    lemma_atom_primary(t, end, th, 2);
}

/// `f();` is a call with no arguments.
pub proof fn lemma_call_without_arguments(
    f: SpannedToken,
    lp: SpannedToken,
    rp: SpannedToken,
    semi: SpannedToken,
    end: usize,
    th: bool,
)
    requires
        f.token is Identifier,
        lp.token is LeftParenthesis,
        rp.token is RightParenthesis,
        semi.token is Semicolon,
    ensures
        parse_tokens(seq![f, lp, rp, semi], end, th) == Ok::<Seq<NodeView>, Error>(
            seq![
                NodeView::Stmt(
                    StmtView::FunctionCall { iden: f.token->Identifier_0@, args: Seq::empty() },
                ),
            ],
        ),
{
    reveal_with_fuel(program, 2);
}

/// `f(a, b);` is a call with the arguments `a` and `b`, in order.
pub proof fn lemma_call_with_two_arguments(
    f: SpannedToken,
    lp: SpannedToken,
    a: SpannedToken,
    comma: SpannedToken,
    b: SpannedToken,
    rp: SpannedToken,
    semi: SpannedToken,
    end: usize,
    th: bool,
)
    requires
        f.token is Identifier,
        lp.token is LeftParenthesis,
        atom(a, th) is Some,
        comma.token is Comma,
        atom(b, th) is Some,
        rp.token is RightParenthesis,
        semi.token is Semicolon,
    ensures
        parse_tokens(seq![f, lp, a, comma, b, rp, semi], end, th) == Ok::<Seq<NodeView>, Error>(
            seq![
                NodeView::Stmt(
                    StmtView::FunctionCall {
                        iden: f.token->Identifier_0@,
                        args: seq![atom(a, th)->Some_0, atom(b, th)->Some_0],
                    },
                ),
            ],
        ),
{
    reveal_with_fuel(program, 2);
    reveal_with_fuel(call_args, 2);
    let t = seq![f, lp, a, comma, b, rp, semi];
    lemma_atom_primary(t, end, th, 2);
    lemma_atom_primary(t, end, th, 4);
    assert(Seq::<ExprView>::empty().push(atom(a, th)->Some_0).push(atom(b, th)->Some_0) =~= seq![
        atom(a, th)->Some_0,
        atom(b, th)->Some_0,
    ]);
}

/// A group left open at the end of input is tolerated: `(a OP b` is
/// `a OP b`.
pub proof fn lemma_unclosed_group(
    lp: SpannedToken,
    a: SpannedToken,
    op: SpannedToken,
    b: SpannedToken,
    end: usize,
    th: bool,
)
    requires
        lp.token is LeftParenthesis,
        atom(a, th) is Some,
        binop_of(op.token) is Some,
        atom(b, th) is Some,
    ensures
        parse_tokens(seq![lp, a, op, b], end, th) == expr_stmt(
            ExprView::binary(binop_of(op.token)->Some_0, atom(a, th)->Some_0, atom(b, th)->Some_0),
        ),
{
    reveal_with_fuel(program, 2);
    let t = seq![lp, a, op, b];
    let x = atom(a, th)->Some_0;
    let e = ExprView::binary(binop_of(op.token)->Some_0, x, atom(b, th)->Some_0);
    lemma_atom_primary(t, end, th, 1);
    lemma_atom_primary(t, end, th, 3);
    assert(operation(t, end, th, 2, x) == (Ok::<ExprView, Error>(e), 1nat));
    assert(fold_paren(t, end, th, 4, e) == (Ok::<ExprView, Error>(e), 0nat));
    assert(fold_paren(t, end, th, 2, x) == (Ok::<ExprView, Error>(e), 2nat));
    assert(paren(t, end, th, 1) == (Ok::<ExprView, Error>(e), 2nat));
    assert(primary(t, end, th, 0) == (Ok::<ExprView, Error>(e), 3nat));
}

/// Negation takes one primary: `!a OP b` is `(!a) OP b`.
pub proof fn lemma_not_binds_one_primary(
    bang: SpannedToken,
    a: SpannedToken,
    op: SpannedToken,
    b: SpannedToken,
    end: usize,
    th: bool,
)
    requires
        bang.token is LogNot,
        atom(a, th) is Some,
        binop_of(op.token) is Some,
        atom(b, th) is Some,
    ensures
        parse_tokens(seq![bang, a, op, b], end, th) == expr_stmt(
            ExprView::binary(
                binop_of(op.token)->Some_0,
                ExprView {
                    kind: ExprKindView::Not(Box::new(atom(a, th)->Some_0)),
                    span: Span { start: bang.span.start, end: a.span.end },
                },
                atom(b, th)->Some_0,
            ),
        ),
{
    reveal_with_fuel(program, 2);
    reveal_with_fuel(fold_stmt, 2);
    let t = seq![bang, a, op, b];
    lemma_atom_primary(t, end, th, 1);
    lemma_atom_primary(t, end, th, 3);
}

/// Where an operator is expected, a left parenthesis is an unexpected
/// token, reported at its span: in a fold step and in each fold loop.
pub proof fn lemma_stray_paren(
    t: Seq<SpannedToken>,
    end: usize,
    th: bool,
    i: int,
    acc: ExprView,
)
    requires
        0 <= i < t.len(),
        t[i].token is LeftParenthesis,
    ensures
        operation(t, end, th, i, acc).0 == Err::<ExprView, Error>(unexpected(t[i].span)),
        fold_stmt(t, end, th, i, acc).0 == Err::<NodeView, Error>(unexpected(t[i].span)),
        fold_paren(t, end, th, i, acc).0 == Err::<ExprView, Error>(unexpected(t[i].span)),
        fold_assign(t, end, th, i, acc).0 == Err::<ExprView, Error>(unexpected(t[i].span)),
{
}

/// `a OP b ( c` fails at the parenthesis.
pub proof fn lemma_stray_paren_after_operand(
    a: SpannedToken,
    op: SpannedToken,
    b: SpannedToken,
    lp: SpannedToken,
    c: SpannedToken,
    end: usize,
    th: bool,
)
    requires
        atom(a, th) is Some,
        binop_of(op.token) is Some,
        atom(b, th) is Some,
        lp.token is LeftParenthesis,
    ensures
        parse_tokens(seq![a, op, b, lp, c], end, th) == Err::<Seq<NodeView>, Error>(
            unexpected(lp.span),
        ),
{
    let t = seq![a, op, b, lp, c];
    lemma_atom_primary(t, end, th, 0);
    lemma_atom_primary(t, end, th, 2);
    lemma_stray_paren(t, end, th, 3, ExprView::binary(
        binop_of(op.token)->Some_0,
        atom(a, th)->Some_0,
        atom(b, th)->Some_0,
    ));
}

} // verus!
