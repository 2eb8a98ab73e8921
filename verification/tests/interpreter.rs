//! End-to-end evaluation: scoping, closures, control flow, diagnostics, and
//! the native functions.

use lox_eval::ast::AssignExpr;
use lox_eval::ast::Ast;
use lox_eval::ast::BinaryExpr;
use lox_eval::ast::Block;
use lox_eval::ast::BreakStmt;
use lox_eval::ast::ExprRef;
use lox_eval::ast::ExprStmt;
use lox_eval::ast::FunCall;
use lox_eval::ast::FunDecl;
use lox_eval::ast::FunDef;
use lox_eval::ast::GroupExpr;
use lox_eval::ast::IfStmt;
use lox_eval::ast::LiteralExpr;
use lox_eval::ast::PrintStmt;
use lox_eval::ast::Program;
use lox_eval::ast::ReturnStmt;
use lox_eval::ast::StmtRef;
use lox_eval::ast::UnaryExpr;
use lox_eval::ast::VarDecl;
use lox_eval::ast::WhileStmt;
use lox_eval::diag::ErrKind;
use lox_eval::diag::Halt;
use lox_eval::function::all_natives;
use lox_eval::interpret::Interpretor;
use lox_eval::interpret::Outcome;
use lox_eval::interpret::interpret;
use lox_eval::token::Token;
use lox_eval::token::TokenKind;
use lox_eval::value::Value;

const FUEL: u64 = 1_000_000;

fn t(k: TokenKind, text: &str, line: u64) -> Token {
    Token::create(k, text.to_string(), line)
}

fn num(text: &str, line: u64) -> ExprRef {
    LiteralExpr::create(t(TokenKind::Number, text, line))
}

fn strlit(inner: &str, line: u64) -> ExprRef {
    let mut text = String::from("\"");
    text.push_str(inner);
    text.push('"');
    LiteralExpr::create(Token::create(TokenKind::String, text, line))
}

fn ident(name: &str, line: u64) -> ExprRef {
    LiteralExpr::create(t(TokenKind::Identifier, name, line))
}

fn bin(k: TokenKind, text: &str, line: u64, l: ExprRef, r: ExprRef) -> ExprRef {
    BinaryExpr::create(t(k, text, line), l, r)
}

fn var_decl(name: &str, line: u64, init: Option<ExprRef>) -> StmtRef {
    VarDecl::create(t(TokenKind::Identifier, name, line), init)
}

fn assign(name: &str, line: u64, e: ExprRef) -> ExprRef {
    AssignExpr::create(t(TokenKind::Identifier, name, line), e)
}

fn print_stmt(e: ExprRef) -> StmtRef {
    PrintStmt::create(e)
}

fn prog(stmts: Vec<StmtRef>) -> Ast {
    Ast::create(Program::create(stmts))
}

fn run_prog(stmts: Vec<StmtRef>) -> (Interpretor, Result<Outcome, Halt>) {
    let ast = prog(stmts);
    let mut engine = Interpretor::create();
    let r = engine.run(&ast, FUEL);
    (engine, r)
}

fn call(callee: ExprRef, args: Vec<ExprRef>, line: u64) -> ExprRef {
    FunCall::create(callee, args, line)
}

fn eval(e: &ExprRef) -> Result<Value, Halt> {
    let mut engine = Interpretor::create();
    engine.eval_expr(e, FUEL)
}

#[test]
fn one_plus_one_is_two() {
    let r = eval(&bin(TokenKind::Plus, "+", 1, num("1", 1), num("1", 1)));
    assert!(matches!(r, Ok(Value::Number(2))));
    // A whole program completes with nil once its statements have run.
    let ast = prog(vec![ExprStmt::create(bin(TokenKind::Plus, "+", 1, num("1", 1), num("1", 1)))]);
    assert!(matches!(interpret(&ast, FUEL), Some(Value::Nil)));
}

#[test]
fn string_concatenation() {
    match eval(&bin(TokenKind::Plus, "+", 1, strlit("a", 1), strlit("b", 1))) {
        Ok(Value::String(x)) => assert_eq!(x.as_str(), "ab"),
        _ => panic!("expected a string"),
    }
}

#[test]
fn adding_number_and_string_is_a_reported_type_error() {
    let (engine, r) = run_prog(vec![ExprStmt::create(bin(
        TokenKind::Plus,
        "+",
        7,
        num("1", 7),
        strlit("a", 7),
    ))]);
    match r {
        Err(Halt::Fault(e)) => {
            assert_eq!(e.kind, ErrKind::RuntimeType);
            assert_eq!(e.line, 7);
        },
        _ => panic!("expected a fault"),
    }
    assert_eq!(engine.diags().len(), 1);
    assert_eq!(engine.diags()[0].line, 7);
}

#[test]
fn string_literal_strips_first_and_last_character() {
    match eval(&strlit("hello", 1)) {
        Ok(Value::String(x)) => assert_eq!(x.as_str(), "hello"),
        _ => panic!("expected a string"),
    }
}

#[test]
fn number_literal_evaluates_to_parsed_value() {
    assert!(matches!(eval(&num("-12345", 1)), Ok(Value::Number(-12345))));
}

#[test]
fn malformed_number_literal_is_reported() {
    let (engine, r) = run_prog(vec![ExprStmt::create(num("1.5", 3))]);
    match r {
        Err(Halt::Fault(e)) => {
            assert_eq!(e.kind, ErrKind::NumberFormat);
            assert_eq!(e.line, 3);
        },
        _ => panic!("expected a fault"),
    }
    assert_eq!(engine.diags()[0].message.as_str(), "invalid number (1.5)");
}

#[test]
fn grouping_passes_through() {
    assert!(matches!(eval(&GroupExpr::create(num("9", 1))), Ok(Value::Number(9))));
}

#[test]
fn unary_negation_of_non_number_is_reported() {
    let (engine, r) = run_prog(vec![ExprStmt::create(UnaryExpr::create(
        t(TokenKind::Minus, "-", 2),
        strlit("x", 2),
    ))]);
    assert!(matches!(r, Err(Halt::Fault(_))));
    assert_eq!(engine.diags()[0].message.as_str(), "expected number after '-'");
}

#[test]
fn print_stops_at_first_error_and_never_prints_later_lines() {
    // print 1; print (1 + "x"); print 3;  ->  "1", then a reported error,
    // and "3" is never printed.
    let (engine, r) = run_prog(vec![
        print_stmt(num("1", 1)),
        print_stmt(GroupExpr::create(bin(TokenKind::Plus, "+", 2, num("1", 2), strlit("x", 2)))),
        print_stmt(num("3", 3)),
    ]);
    assert!(matches!(r, Err(Halt::Fault(_))));
    assert_eq!(engine.output().len(), 1);
    assert_eq!(engine.output()[0].as_str(), "1");
    assert_eq!(engine.diags().len(), 1);
    assert_eq!(engine.diags()[0].line, 2);
}

#[test]
fn variables_declare_read_and_assign() {
    let (engine, r) = run_prog(vec![
        var_decl("x", 1, Some(num("1", 1))),
        ExprStmt::create(assign("x", 2, bin(TokenKind::Plus, "+", 2, ident("x", 2), num("2", 2)))),
        print_stmt(ident("x", 3)),
    ]);
    assert!(matches!(r, Ok(Outcome::Norm(_))));
    assert_eq!(engine.output()[0].as_str(), "3");
}

#[test]
fn declaration_without_initializer_binds_nil() {
    let (engine, r) = run_prog(vec![var_decl("x", 1, None), print_stmt(ident("x", 2))]);
    assert!(matches!(r, Ok(_)));
    assert_eq!(engine.output()[0].as_str(), "NIL");
}

#[test]
fn assigning_an_undeclared_name_fails_and_does_not_create_it() {
    let (engine, r) = run_prog(vec![ExprStmt::create(assign("ghost_name", 4, num("1", 4)))]);
    match r {
        Err(Halt::Fault(e)) => {
            assert_eq!(e.kind, ErrKind::UndefinedVariable);
            assert_eq!(e.line, 4);
        },
        _ => panic!("expected a fault"),
    }
    assert_eq!(
        engine.diags()[0].message.as_str(),
        "undefined variable (ghost_name)"
    );
    // The binding was not created.
    assert!(engine.lookup(&"ghost_name".to_string()).is_none());
}

#[test]
fn reading_an_undefined_variable_is_reported() {
    let (engine, r) = run_prog(vec![print_stmt(ident("nope", 9))]);
    assert!(matches!(r, Err(Halt::Fault(_))));
    assert_eq!(engine.diags()[0].line, 9);
    assert_eq!(engine.output().len(), 0);
}

#[test]
fn blocks_shadow_and_restore() {
    let (engine, _) = run_prog(vec![
        var_decl("x", 1, Some(num("1", 1))),
        Block::create(vec![
            var_decl("x", 2, Some(num("2", 2))),
            print_stmt(ident("x", 3)),
        ]),
        print_stmt(ident("x", 5)),
    ]);
    assert_eq!(engine.output()[0].as_str(), "2");
    assert_eq!(engine.output()[1].as_str(), "1");
}

#[test]
fn if_takes_exactly_one_branch() {
    let (engine, _) = run_prog(vec![IfStmt::create(
        num("0", 1),
        print_stmt(strlit("then", 1)),
        Some(print_stmt(strlit("else", 1))),
    )]);
    // Zero is truthy, so the then-branch runs.
    assert_eq!(engine.output().len(), 1);
    assert_eq!(engine.output()[0].as_str(), "then");
    let (engine, _) = run_prog(vec![IfStmt::create(
        LiteralExpr::create(t(TokenKind::False, "false", 1)),
        print_stmt(strlit("then", 1)),
        Some(print_stmt(strlit("else", 1))),
    )]);
    assert_eq!(engine.output()[0].as_str(), "else");
}

#[test]
fn while_counts_and_stops() {
    // var i = 0; while (i < 3) { i = i + 1; }  print i;
    let (engine, r) = run_prog(vec![
        var_decl("i", 1, Some(num("0", 1))),
        WhileStmt::create(
            bin(TokenKind::Less, "<", 2, ident("i", 2), num("3", 2)),
            Block::create(vec![ExprStmt::create(assign(
                "i",
                3,
                bin(TokenKind::Plus, "+", 3, ident("i", 3), num("1", 3)),
            ))]),
        ),
        print_stmt(ident("i", 5)),
    ]);
    assert!(matches!(r, Ok(_)));
    assert_eq!(engine.output()[0].as_str(), "3");
}

#[test]
fn break_terminates_only_the_innermost_loop() {
    // var i = 0;
    // while (i < 3) { while (true) { break; } i = i + 1; }
    // print i;   -> "3": the inner break never ends the outer loop.
    let inner = WhileStmt::create(
        LiteralExpr::create(t(TokenKind::True, "true", 2)),
        Block::create(vec![BreakStmt::create(t(TokenKind::Break, "break", 2))]),
    );
    let (engine, r) = run_prog(vec![
        var_decl("i", 1, Some(num("0", 1))),
        WhileStmt::create(
            bin(TokenKind::Less, "<", 2, ident("i", 2), num("3", 2)),
            Block::create(vec![
                inner,
                ExprStmt::create(assign(
                    "i",
                    3,
                    bin(TokenKind::Plus, "+", 3, ident("i", 3), num("1", 3)),
                )),
            ]),
        ),
        print_stmt(ident("i", 5)),
    ]);
    assert!(matches!(r, Ok(_)));
    assert_eq!(engine.output()[0].as_str(), "3");
}

#[test]
fn return_inside_loop_exits_the_whole_function() {
    // fun f() { while (true) { return 7; }  return 8; }  print f();
    let body = Block::create(vec![
        WhileStmt::create(
            LiteralExpr::create(t(TokenKind::True, "true", 2)),
            Block::create(vec![ReturnStmt::create(
                t(TokenKind::Return, "return", 2),
                Some(num("7", 2)),
            )]),
        ),
        ReturnStmt::create(t(TokenKind::Return, "return", 3), Some(num("8", 3))),
    ]);
    let (engine, r) = run_prog(vec![
        FunDecl::create(t(TokenKind::Identifier, "f", 1), vec![], body),
        print_stmt(call(ident("f", 4), vec![], 4)),
    ]);
    assert!(matches!(r, Ok(_)));
    assert_eq!(engine.output()[0].as_str(), "7");
}

#[test]
fn function_without_return_yields_nil() {
    let body = Block::create(vec![]);
    let (engine, _) = run_prog(vec![
        FunDecl::create(t(TokenKind::Identifier, "f", 1), vec![], body),
        print_stmt(call(ident("f", 2), vec![], 2)),
    ]);
    assert_eq!(engine.output()[0].as_str(), "NIL");
}

#[test]
fn parameters_bind_positionally() {
    // fun sub(a, b) { return a - b; }  print sub(10, 4);
    let body = Block::create(vec![ReturnStmt::create(
        t(TokenKind::Return, "return", 2),
        Some(bin(TokenKind::Minus, "-", 2, ident("a", 2), ident("b", 2))),
    )]);
    let (engine, _) = run_prog(vec![
        FunDecl::create(
            t(TokenKind::Identifier, "sub", 1),
            vec![t(TokenKind::Identifier, "a", 1), t(TokenKind::Identifier, "b", 1)],
            body,
        ),
        print_stmt(call(ident("sub", 3), vec![num("10", 3), num("4", 3)], 3)),
    ]);
    assert_eq!(engine.output()[0].as_str(), "6");
}

#[test]
fn arity_mismatch_is_reported() {
    let body = Block::create(vec![]);
    let (engine, r) = run_prog(vec![
        FunDecl::create(
            t(TokenKind::Identifier, "f", 1),
            vec![t(TokenKind::Identifier, "a", 1)],
            body,
        ),
        ExprStmt::create(call(ident("f", 2), vec![num("1", 2), num("2", 2)], 2)),
    ]);
    match r {
        Err(Halt::Fault(e)) => assert_eq!(e.kind, ErrKind::ArityMismatch),
        _ => panic!("expected a fault"),
    }
    assert_eq!(engine.diags()[0].message.as_str(), "wrong number of arguments");
}

#[test]
fn calling_a_non_function_is_reported() {
    let (engine, r) = run_prog(vec![ExprStmt::create(call(num("1", 6), vec![], 6))]);
    match r {
        Err(Halt::Fault(e)) => {
            assert_eq!(e.kind, ErrKind::UndefinedFunction);
            assert_eq!(e.line, 6);
        },
        _ => panic!("expected a fault"),
    }
    assert_eq!(engine.diags()[0].message.as_str(), "can only call functions");
}

#[test]
fn recursion_through_the_declared_name() {
    // fun f(n) { if (n < 1) { return 0; } return n + f(n - 1); }
    // print f(4);  -> 10
    let body = Block::create(vec![
        IfStmt::create(
            bin(TokenKind::Less, "<", 2, ident("n", 2), num("1", 2)),
            Block::create(vec![ReturnStmt::create(
                t(TokenKind::Return, "return", 2),
                Some(num("0", 2)),
            )]),
            None,
        ),
        ReturnStmt::create(
            t(TokenKind::Return, "return", 3),
            Some(bin(
                TokenKind::Plus,
                "+",
                3,
                ident("n", 3),
                call(
                    ident("f", 3),
                    vec![bin(TokenKind::Minus, "-", 3, ident("n", 3), num("1", 3))],
                    3,
                ),
            )),
        ),
    ]);
    let (engine, _) = run_prog(vec![
        FunDecl::create(
            t(TokenKind::Identifier, "f", 1),
            vec![t(TokenKind::Identifier, "n", 1)],
            body,
        ),
        print_stmt(call(ident("f", 5), vec![num("4", 5)], 5)),
    ]);
    assert_eq!(engine.output()[0].as_str(), "10");
}

fn counter_decl(fun_name: &str, var_name: &str, line: u64) -> StmtRef {
    // fun <fun_name>() { <var_name> = <var_name> + 1; return <var_name>; }
    let body = Block::create(vec![
        ExprStmt::create(assign(
            var_name,
            line,
            bin(TokenKind::Plus, "+", line, ident(var_name, line), num("1", line)),
        )),
        ReturnStmt::create(
            t(TokenKind::Return, "return", line),
            Some(ident(var_name, line)),
        ),
    ]);
    FunDecl::create(t(TokenKind::Identifier, fun_name, line), vec![], body)
}

#[test]
fn closure_counter_increases_across_calls() {
    // var c = 0; fun inc() { c = c + 1; return c; }
    // print inc(); print inc(); print inc();
    let (engine, r) = run_prog(vec![
        var_decl("c", 1, Some(num("0", 1))),
        counter_decl("inc", "c", 2),
        print_stmt(call(ident("inc", 3), vec![], 3)),
        print_stmt(call(ident("inc", 4), vec![], 4)),
        print_stmt(call(ident("inc", 5), vec![], 5)),
    ]);
    assert!(matches!(r, Ok(_)));
    assert_eq!(engine.output()[0].as_str(), "1");
    assert_eq!(engine.output()[1].as_str(), "2");
    assert_eq!(engine.output()[2].as_str(), "3");
}

#[test]
fn independent_closures_do_not_interfere() {
    let (engine, _) = run_prog(vec![
        var_decl("a", 1, Some(num("0", 1))),
        var_decl("b", 1, Some(num("10", 1))),
        counter_decl("fa", "a", 2),
        counter_decl("fb", "b", 3),
        print_stmt(call(ident("fa", 4), vec![], 4)),
        print_stmt(call(ident("fb", 5), vec![], 5)),
        print_stmt(call(ident("fa", 6), vec![], 6)),
        print_stmt(call(ident("fb", 7), vec![], 7)),
    ]);
    assert_eq!(engine.output()[0].as_str(), "1");
    assert_eq!(engine.output()[1].as_str(), "11");
    assert_eq!(engine.output()[2].as_str(), "2");
    assert_eq!(engine.output()[3].as_str(), "12");
}

#[test]
fn closure_captures_its_declaration_scope() {
    // A closure made inside a block keeps that block's variable alive.
    // { var n = 5; fun get() { return n; } var g = get; } is beyond this
    // grammar, so capture via an anonymous function bound outside:
    // var g = fun-def; calling g reads the block variable it captured.
    let lambda_body = Block::create(vec![ReturnStmt::create(
        t(TokenKind::Return, "return", 2),
        Some(ident("n", 2)),
    )]);
    let (engine, _) = run_prog(vec![
        var_decl("g", 1, None),
        Block::create(vec![
            var_decl("n", 2, Some(num("5", 2))),
            ExprStmt::create(assign("g", 3, FunDef::create(vec![], lambda_body))),
        ]),
        print_stmt(call(ident("g", 5), vec![], 5)),
    ]);
    assert_eq!(engine.output()[0].as_str(), "5");
}

#[test]
fn log_native_writes_arguments_space_separated() {
    let (engine, r) = run_prog(vec![ExprStmt::create(call(
        ident("log", 1),
        vec![num("1", 1), strlit("a", 1)],
        1,
    ))]);
    assert!(matches!(r, Ok(_)));
    assert_eq!(engine.output()[0].as_str(), "1 a");
    let (engine, r) = run_prog(vec![ExprStmt::create(call(ident("log", 2), vec![], 2))]);
    assert!(matches!(r, Ok(_)));
    assert_eq!(engine.output()[0].as_str(), "");
}

#[test]
fn clock_native_returns_a_number() {
    match eval(&call(ident("clock", 1), vec![], 1)) {
        Ok(Value::Number(n)) => assert!(n >= 0),
        _ => panic!("expected a number"),
    }
}

#[test]
fn clock_readings_advance_within_a_run() {
    let (engine, r) = run_prog(vec![
        print_stmt(call(ident("clock", 1), vec![], 1)),
        print_stmt(call(ident("clock", 2), vec![], 2)),
    ]);
    assert!(matches!(r, Ok(_)));
    let a: i64 = engine.output()[0].parse().unwrap();
    let b: i64 = engine.output()[1].parse().unwrap();
    assert!(a >= 0);
    assert_eq!(b, a + 1);
}

#[test]
fn natives_table_lists_log_and_clock() {
    let nats = all_natives();
    assert_eq!(nats.len(), 2);
    assert_eq!(nats[0].0.as_str(), "log");
    assert_eq!(nats[0].1.params().len(), 1);
    assert_eq!(nats[1].0.as_str(), "clock");
    assert_eq!(nats[1].1.params().len(), 0);
}

#[test]
fn unbounded_loop_exhausts_the_budget() {
    let ast = prog(vec![WhileStmt::create(
        LiteralExpr::create(t(TokenKind::True, "true", 1)),
        Block::create(vec![]),
    )]);
    let mut engine = Interpretor::create();
    let r = engine.run(&ast, 2000);
    assert!(matches!(r, Err(Halt::Exhausted)));
}

#[test]
fn equality_of_values_in_programs() {
    // 1 == "1" is false; nil == nil is true.
    let e = bin(TokenKind::EqualEqual, "==", 1, num("1", 1), strlit("1", 1));
    assert!(matches!(eval(&e), Ok(Value::Boolean(false))));
    let e = bin(
        TokenKind::EqualEqual,
        "==",
        1,
        LiteralExpr::create(t(TokenKind::Nil, "nil", 1)),
        LiteralExpr::create(t(TokenKind::Nil, "nil", 1)),
    );
    assert!(matches!(eval(&e), Ok(Value::Boolean(true))));
}

#[test]
fn division_by_zero_is_reported() {
    let (engine, r) = run_prog(vec![ExprStmt::create(bin(
        TokenKind::Slash,
        "/",
        2,
        num("1", 2),
        num("0", 2),
    ))]);
    match r {
        Err(Halt::Fault(e)) => assert_eq!(e.kind, ErrKind::DivisionByZero),
        _ => panic!("expected a fault"),
    }
    assert_eq!(engine.diags()[0].message.as_str(), "division by zero");
}
