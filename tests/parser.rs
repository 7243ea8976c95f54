use ablescript::ast::{BinOp, Expr, ExprKind, Iden, ParseNode, Stmt, Value};
use ablescript::error::{Error, ErrorKind};
use ablescript::parser::Parser;
use ablescript::token::{Abool, Span, SpannedToken, Token};

fn sp(start: usize, end: usize) -> Span {
    Span::new(start, end)
}

fn tok(token: Token, start: usize, end: usize) -> SpannedToken {
    SpannedToken::new(token, sp(start, end))
}

fn ident(name: &str, start: usize) -> SpannedToken {
    tok(Token::Identifier(name.to_string()), start, start + name.len())
}

fn num(n: i32, start: usize, end: usize) -> SpannedToken {
    tok(Token::Integer(n), start, end)
}

fn parse(tokens: Vec<SpannedToken>, source_len: usize) -> Result<Vec<ParseNode>, Error> {
    Parser::new(tokens, source_len, false).parse()
}

fn lit(v: Value, start: usize, end: usize) -> Expr {
    Expr { kind: ExprKind::Literal(v), span: sp(start, end) }
}

fn var(name: &str, start: usize) -> Expr {
    Expr { kind: ExprKind::Identifier(Iden(name.to_string())), span: sp(start, start + name.len()) }
}

fn bin(op: BinOp, left: Expr, right: Expr) -> Expr {
    let span = sp(left.span.start, right.span.end);
    Expr { kind: ExprKind::Binary { op, left: Box::new(left), right: Box::new(right) }, span }
}

fn single_expr(r: Result<Vec<ParseNode>, Error>) -> Expr {
    let mut nodes = r.expect("parse should succeed");
    assert_eq!(nodes.len(), 1);
    match nodes.pop().unwrap() {
        ParseNode::Expr(e) => e,
        other => panic!("expected an expression statement, got {:?}", other),
    }
}

#[test]
fn lone_literals_keep_value_and_span() {
    let cases = vec![
        (Token::Boolean(true), Value::Bool(true)),
        (Token::Integer(-42), Value::Int(-42)),
        (Token::String("hi".to_string()), Value::Str("hi".to_string())),
        (Token::Aboolean(Abool::Sometimes), Value::Abool(Abool::Sometimes)),
        (Token::Nul, Value::Nul),
    ];
    for (t, v) in cases {
        let e = single_expr(parse(vec![tok(t, 3, 7)], 7));
        assert_eq!(e, lit(v, 3, 7));
    }
}

#[test]
fn operators_fold_left_to_right() {
    // 1 + 2 * 3
    let r = parse(
        vec![
            num(1, 0, 1),
            tok(Token::Addition, 2, 3),
            num(2, 4, 5),
            tok(Token::Multiply, 6, 7),
            num(3, 8, 9),
        ],
        9,
    );
    let expected = bin(
        BinOp::Multiply,
        bin(BinOp::Add, lit(Value::Int(1), 0, 1), lit(Value::Int(2), 4, 5)),
        lit(Value::Int(3), 8, 9),
    );
    assert_eq!(single_expr(r), expected);
}

#[test]
fn every_operator_token_builds_its_node() {
    let table = vec![
        (Token::Addition, BinOp::Add),
        (Token::Subtract, BinOp::Subtract),
        (Token::Multiply, BinOp::Multiply),
        (Token::Divide, BinOp::Divide),
        (Token::OpLt, BinOp::Lt),
        (Token::OpGt, BinOp::Gt),
        (Token::OpEq, BinOp::Eq),
        (Token::OpNeq, BinOp::Neq),
        (Token::LogAnd, BinOp::And),
        (Token::LogOr, BinOp::Or),
    ];
    for (t, op) in table {
        let r = parse(vec![ident("a", 0), tok(t, 2, 3), ident("b", 4)], 5);
        assert_eq!(single_expr(r), bin(op, var("a", 0), var("b", 4)));
    }
}

#[test]
fn assignment_without_semicolon_hits_end_of_input() {
    // x = 1
    let r = parse(vec![ident("x", 0), tok(Token::Assignment, 2, 3), num(1, 4, 5)], 5);
    let e = r.unwrap_err();
    assert_eq!(e.kind, ErrorKind::EndOfTokenStream);
    assert_eq!(e.span, Some(sp(4, 5)));
}

#[test]
fn assignment_folds_until_semicolon() {
    // x = 1 + 2;
    let r = parse(
        vec![
            ident("x", 0),
            tok(Token::Assignment, 2, 3),
            num(1, 4, 5),
            tok(Token::Addition, 6, 7),
            num(2, 8, 9),
            tok(Token::Semicolon, 9, 10),
        ],
        10,
    )
    .unwrap();
    assert_eq!(
        r,
        vec![ParseNode::Stmt(Stmt::VarAssignment {
            iden: Iden("x".to_string()),
            value: bin(BinOp::Add, lit(Value::Int(1), 4, 5), lit(Value::Int(2), 8, 9)),
        })]
    );
}

#[test]
fn assignment_target_must_be_a_name() {
    // 1 = 2;
    let r = parse(
        vec![num(1, 0, 1), tok(Token::Assignment, 2, 3), num(2, 4, 5), tok(Token::Semicolon, 5, 6)],
        6,
    );
    assert_eq!(r, Err(Error::new(ErrorKind::InvalidIdentifier, Some(sp(2, 3)))));
}

#[test]
fn call_without_arguments() {
    // f();
    let r = parse(
        vec![
            ident("f", 0),
            tok(Token::LeftParenthesis, 1, 2),
            tok(Token::RightParenthesis, 2, 3),
            tok(Token::Semicolon, 3, 4),
        ],
        4,
    )
    .unwrap();
    assert_eq!(
        r,
        vec![ParseNode::Stmt(Stmt::FunctionCall { iden: Iden("f".to_string()), args: vec![] })]
    );
}

#[test]
fn call_with_two_arguments() {
    // f(1, 2);
    let r = parse(
        vec![
            ident("f", 0),
            tok(Token::LeftParenthesis, 1, 2),
            num(1, 2, 3),
            tok(Token::Comma, 3, 4),
            num(2, 5, 6),
            tok(Token::RightParenthesis, 6, 7),
            tok(Token::Semicolon, 7, 8),
        ],
        8,
    )
    .unwrap();
    assert_eq!(
        r,
        vec![ParseNode::Stmt(Stmt::FunctionCall {
            iden: Iden("f".to_string()),
            args: vec![lit(Value::Int(1), 2, 3), lit(Value::Int(2), 5, 6)],
        })]
    );
}

#[test]
fn call_accepts_a_trailing_comma() {
    // f(1,);
    let r = parse(
        vec![
            ident("f", 0),
            tok(Token::LeftParenthesis, 1, 2),
            num(1, 2, 3),
            tok(Token::Comma, 3, 4),
            tok(Token::RightParenthesis, 4, 5),
            tok(Token::Semicolon, 5, 6),
        ],
        6,
    )
    .unwrap();
    assert_eq!(
        r,
        vec![ParseNode::Stmt(Stmt::FunctionCall {
            iden: Iden("f".to_string()),
            args: vec![lit(Value::Int(1), 2, 3)],
        })]
    );
}

#[test]
fn call_argument_is_one_primary() {
    // f(1 + 2);  the '+' is a bad separator, reported without a span
    let r = parse(
        vec![
            ident("f", 0),
            tok(Token::LeftParenthesis, 1, 2),
            num(1, 2, 3),
            tok(Token::Addition, 4, 5),
            num(2, 6, 7),
            tok(Token::RightParenthesis, 7, 8),
            tok(Token::Semicolon, 8, 9),
        ],
        9,
    );
    assert_eq!(r, Err(Error::new(ErrorKind::UnexpectedToken, None)));
}

#[test]
fn call_target_must_be_a_name() {
    // 1(2);
    let r = parse(
        vec![
            num(1, 0, 1),
            tok(Token::LeftParenthesis, 1, 2),
            num(2, 2, 3),
            tok(Token::RightParenthesis, 3, 4),
            tok(Token::Semicolon, 4, 5),
        ],
        5,
    );
    assert_eq!(r, Err(Error::new(ErrorKind::InvalidIdentifier, Some(sp(0, 1)))));
}

#[test]
fn call_needs_a_semicolon() {
    // f()
    let r = parse(
        vec![ident("f", 0), tok(Token::LeftParenthesis, 1, 2), tok(Token::RightParenthesis, 2, 3)],
        3,
    );
    assert_eq!(r, Err(Error::new(ErrorKind::EndOfTokenStream, Some(sp(3, 3)))));
}

#[test]
fn unterminated_group_is_tolerated() {
    // (1 + 2
    let r = parse(
        vec![
            tok(Token::LeftParenthesis, 0, 1),
            num(1, 1, 2),
            tok(Token::Addition, 3, 4),
            num(2, 5, 6),
        ],
        6,
    );
    let expected = bin(BinOp::Add, lit(Value::Int(1), 1, 2), lit(Value::Int(2), 5, 6));
    assert_eq!(single_expr(r), expected);
}

#[test]
fn group_changes_the_grouping() {
    // 1 + (2 * 3)
    let r = parse(
        vec![
            num(1, 0, 1),
            tok(Token::Addition, 2, 3),
            tok(Token::LeftParenthesis, 4, 5),
            num(2, 5, 6),
            tok(Token::Multiply, 7, 8),
            num(3, 9, 10),
            tok(Token::RightParenthesis, 10, 11),
        ],
        11,
    );
    let expected = bin(
        BinOp::Add,
        lit(Value::Int(1), 0, 1),
        bin(BinOp::Multiply, lit(Value::Int(2), 5, 6), lit(Value::Int(3), 9, 10)),
    );
    assert_eq!(single_expr(r), expected);
}

#[test]
fn not_binds_one_primary() {
    // !a + b
    let r = parse(
        vec![tok(Token::LogNot, 0, 1), ident("a", 1), tok(Token::Addition, 3, 4), ident("b", 5)],
        6,
    );
    let not_a = Expr { kind: ExprKind::Not(Box::new(var("a", 1))), span: sp(0, 2) };
    assert_eq!(single_expr(r), bin(BinOp::Add, not_a, var("b", 5)));
}

#[test]
fn stray_parenthesis_after_an_operand() {
    // a + b ( c
    let r = parse(
        vec![
            ident("a", 0),
            tok(Token::Addition, 2, 3),
            ident("b", 4),
            tok(Token::LeftParenthesis, 6, 7),
            ident("c", 8),
        ],
        9,
    );
    assert_eq!(r, Err(Error::unexpected_token(sp(6, 7))));
}

#[test]
fn stray_parenthesis_inside_a_group() {
    // (a ( b
    let r = parse(
        vec![
            tok(Token::LeftParenthesis, 0, 1),
            ident("a", 1),
            tok(Token::LeftParenthesis, 3, 4),
            ident("b", 5),
        ],
        6,
    );
    assert_eq!(r, Err(Error::unexpected_token(sp(3, 4))));
}

#[test]
fn print_statement() {
    // 1 print;
    let r = parse(vec![num(1, 0, 1), tok(Token::Print, 2, 7), tok(Token::Semicolon, 7, 8)], 8).unwrap();
    assert_eq!(r, vec![ParseNode::Stmt(Stmt::Print(lit(Value::Int(1), 0, 1)))]);
}

#[test]
fn print_needs_a_semicolon() {
    let r = parse(vec![num(1, 0, 1), tok(Token::Print, 2, 7)], 7);
    assert_eq!(r, Err(Error::new(ErrorKind::EndOfTokenStream, Some(sp(7, 7)))));
    let r = parse(vec![num(1, 0, 1), tok(Token::Print, 2, 7), tok(Token::Comma, 7, 8)], 8);
    assert_eq!(r, Err(Error::unexpected_token(sp(7, 8))));
}

#[test]
fn statements_come_in_source_order() {
    // x = 1; x print;
    let r = parse(
        vec![
            ident("x", 0),
            tok(Token::Assignment, 2, 3),
            num(1, 4, 5),
            tok(Token::Semicolon, 5, 6),
            ident("x", 7),
            tok(Token::Print, 9, 14),
            tok(Token::Semicolon, 14, 15),
        ],
        15,
    )
    .unwrap();
    assert_eq!(
        r,
        vec![
            ParseNode::Stmt(Stmt::VarAssignment {
                iden: Iden("x".to_string()),
                value: lit(Value::Int(1), 4, 5),
            }),
            ParseNode::Stmt(Stmt::Print(var("x", 7))),
        ]
    );
}

#[test]
fn empty_input_gives_no_statements() {
    assert_eq!(parse(vec![], 0), Ok(vec![]));
}

#[test]
fn token_that_cannot_start_an_expression() {
    let r = parse(vec![tok(Token::RightParenthesis, 0, 1)], 1);
    assert_eq!(r, Err(Error::unexpected_token(sp(0, 1))));
}

#[test]
fn input_ending_after_an_operator_or_not() {
    let r = parse(vec![num(1, 0, 1), tok(Token::Addition, 2, 3)], 3);
    assert_eq!(r, Err(Error::end_of_token_stream(sp(3, 3))));
    let r = parse(vec![tok(Token::LogNot, 0, 1)], 4);
    assert_eq!(r, Err(Error::end_of_token_stream(sp(4, 4))));
}

#[test]
fn a_name_followed_by_parenthesis_is_a_call() {
    // a ( b  reads as a call whose argument list is cut short
    let r = parse(vec![ident("a", 0), tok(Token::LeftParenthesis, 2, 3), ident("b", 4)], 5);
    assert_eq!(r, Err(Error::new(ErrorKind::UnexpectedToken, None)));
}
