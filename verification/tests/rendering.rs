//! Golden output for the canonical textual rendering.

use lox_eval::ast::AssignExpr;
use lox_eval::ast::Ast;
use lox_eval::ast::BinaryExpr;
use lox_eval::ast::Block;
use lox_eval::ast::BreakStmt;
use lox_eval::ast::ExprRef;
use lox_eval::ast::ExprStmt;
use lox_eval::ast::FunCall;
use lox_eval::ast::FunDecl;
use lox_eval::ast::FunDef;
use lox_eval::ast::GroupExpr;
use lox_eval::ast::IfStmt;
use lox_eval::ast::LiteralExpr;
use lox_eval::ast::Program;
use lox_eval::ast::ReturnStmt;
use lox_eval::ast::UnaryExpr;
use lox_eval::ast::VarDecl;
use lox_eval::ast::WhileStmt;
use lox_eval::render::ast_to_text;
use lox_eval::render::expr_to_text;
use lox_eval::render::stmt_to_text;
use lox_eval::token::Token;
use lox_eval::token::TokenKind;

fn t(k: TokenKind, text: &str) -> Token {
    Token::create(k, text.to_string(), 1)
}

fn num(text: &str) -> ExprRef {
    LiteralExpr::create(t(TokenKind::Number, text))
}

fn ident(name: &str) -> ExprRef {
    LiteralExpr::create(t(TokenKind::Identifier, name))
}

#[test]
fn binary_and_unary_render_parenthesized() {
    let e = BinaryExpr::create(t(TokenKind::Plus, "+"), num("1"), num("2"));
    assert_eq!(expr_to_text(&e).as_str(), "(+ 1 2)");
    let e = UnaryExpr::create(t(TokenKind::Minus, "-"), num("3"));
    assert_eq!(expr_to_text(&e).as_str(), "(- 3)");
}

#[test]
fn group_assign_and_literal_render() {
    let e = GroupExpr::create(num("9"));
    assert_eq!(expr_to_text(&e).as_str(), "(group 9)");
    let e = AssignExpr::create(t(TokenKind::Identifier, "x"), num("1"));
    assert_eq!(expr_to_text(&e).as_str(), "(x=1)");
    assert_eq!(expr_to_text(&ident("abc")).as_str(), "abc");
}

#[test]
fn statements_render() {
    let s = ExprStmt::create(num("1"));
    assert_eq!(stmt_to_text(&s).as_str(), "1;");
    let s = VarDecl::create(t(TokenKind::Identifier, "x"), Some(num("1")));
    assert_eq!(stmt_to_text(&s).as_str(), "(var x=1);");
    let s = VarDecl::create(t(TokenKind::Identifier, "x"), None);
    assert_eq!(stmt_to_text(&s).as_str(), "(var x);");
    let s = BreakStmt::create(t(TokenKind::Break, "break"));
    assert_eq!(stmt_to_text(&s).as_str(), "break");
    let s = ReturnStmt::create(t(TokenKind::Return, "return"), None);
    assert_eq!(stmt_to_text(&s).as_str(), "return");
    let s = ReturnStmt::create(t(TokenKind::Return, "return"), Some(num("7")));
    assert_eq!(stmt_to_text(&s).as_str(), "(return 7)");
}

#[test]
fn blocks_and_control_flow_render() {
    let s = Block::create(vec![ExprStmt::create(num("1"))]);
    assert_eq!(stmt_to_text(&s).as_str(), "{1;\n}");
    let s = IfStmt::create(num("1"), ExprStmt::create(num("2")), None);
    assert_eq!(stmt_to_text(&s).as_str(), "(if 1 => 2;)\n");
    let s = IfStmt::create(
        num("1"),
        ExprStmt::create(num("2")),
        Some(ExprStmt::create(num("3"))),
    );
    assert_eq!(stmt_to_text(&s).as_str(), "(if 1 => 2; | 3;)\n");
    let s = WhileStmt::create(num("1"), ExprStmt::create(num("2")));
    assert_eq!(stmt_to_text(&s).as_str(), "(while 1 => 2;)\n");
}

#[test]
fn calls_and_functions_render() {
    let e = FunCall::create(ident("f"), vec![num("1"), num("2")], 1);
    assert_eq!(expr_to_text(&e).as_str(), "(f 1, 2,)");
    let s = FunDecl::create(
        t(TokenKind::Identifier, "f"),
        vec![t(TokenKind::Identifier, "a"), t(TokenKind::Identifier, "b")],
        Block::create(vec![]),
    );
    assert_eq!(stmt_to_text(&s).as_str(), "(f a b ){}");
    let e = FunDef::create(vec![t(TokenKind::Identifier, "a")], Block::create(vec![]));
    assert_eq!(expr_to_text(&e).as_str(), "([fun] a ){}");
}

#[test]
fn programs_render_one_statement_per_line() {
    let ast = Ast::create(Program::create(vec![
        ExprStmt::create(num("1")),
        ExprStmt::create(num("2")),
    ]));
    assert_eq!(ast_to_text(&ast).as_str(), "1;\n2;\n");
}
