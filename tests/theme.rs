use ablescript::ast::{Expr, ExprKind, Iden, ParseNode, Stmt, Value};
use ablescript::parser::Parser;
use ablescript::theme::themed;
use ablescript::token::{Span, SpannedToken, Token};

fn parse_one(token: Token, themed_mode: bool) -> ParseNode {
    let mut p = Parser::new(vec![SpannedToken::new(token, Span::new(0, 10))], 10, themed_mode);
    let mut nodes = p.parse().unwrap();
    assert_eq!(nodes.len(), 1);
    nodes.pop().unwrap()
}

#[test]
fn themed_mode_rewrites_names() {
    let node = parse_one(Token::Identifier("langlang".to_string()), true);
    let expected = Expr {
        kind: ExprKind::Identifier(Iden("scriptscript".to_string())),
        span: Span::new(0, 10),
    };
    assert_eq!(node, ParseNode::Expr(expected));
}

#[test]
fn themed_mode_rewrites_strings() {
    let node = parse_one(Token::String("a language".to_string()), true);
    let expected = Expr {
        kind: ExprKind::Literal(Value::Str("a scriptuage".to_string())),
        span: Span::new(0, 10),
    };
    assert_eq!(node, ParseNode::Expr(expected));
}

#[test]
fn plain_mode_leaves_text_alone() {
    let node = parse_one(Token::String("a language".to_string()), false);
    let expected =
        Expr { kind: ExprKind::Literal(Value::Str("a language".to_string())), span: Span::new(0, 10) };
    assert_eq!(node, ParseNode::Expr(expected));
}

#[test]
fn rewriting_twice_changes_nothing_more() {
    let once = themed(true, "llangg lang".to_string());
    assert_eq!(once, "lscriptg script");
    let twice = themed(true, once.clone());
    assert_eq!(twice, once);
    assert_eq!(themed(true, "no match here".to_string()), "no match here");
}

#[test]
fn call_and_assignment_names_are_not_rewritten() {
    let tokens = vec![
        SpannedToken::new(Token::Identifier("lang".to_string()), Span::new(0, 4)),
        SpannedToken::new(Token::LeftParenthesis, Span::new(4, 5)),
        SpannedToken::new(Token::RightParenthesis, Span::new(5, 6)),
        SpannedToken::new(Token::Semicolon, Span::new(6, 7)),
    ];
    let nodes = Parser::new(tokens, 7, true).parse().unwrap();
    assert_eq!(
        nodes,
        vec![ParseNode::Stmt(Stmt::FunctionCall { iden: Iden("lang".to_string()), args: vec![] })]
    );
}
