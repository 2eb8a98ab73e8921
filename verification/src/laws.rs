//! Laws of the evaluation semantics, stated against the specification
//! interpreter and proved once and for all.

use vstd::prelude::*;

use crate::diag::ErrKind;
use crate::diag::Halt;
use crate::diag::RunError;
use crate::interpret::OutModel;
use crate::interpret::StateModel;
use crate::interpret::sp_args;
use crate::interpret::sp_assign;
use crate::interpret::sp_assign_expr;
use crate::interpret::sp_bind;
use crate::interpret::sp_binary;
use crate::interpret::sp_block;
use crate::interpret::sp_call_expr;
use crate::interpret::fun_wf;
use crate::interpret::lemma_wf_with_cur;
use crate::interpret::sp_define;
use crate::interpret::sp_expr_stmt;
use crate::interpret::sp_group;
use crate::interpret::sp_if;
use crate::interpret::sp_invoke;
use crate::interpret::sp_print_stmt;
use crate::interpret::sp_return;
use crate::interpret::sp_unary;
use crate::interpret::sp_var_decl;
use crate::interpret::sp_expr;
use crate::interpret::sp_find;
use crate::interpret::sp_literal;
use crate::interpret::sp_lookup;
use crate::interpret::sp_push_scope;
use crate::interpret::sp_report;
use crate::interpret::undefined_var_msg;
use crate::interpret::scope_wf;
use crate::interpret::state_wf;
use crate::interpret::val_wf;
use crate::interpret::sp_stmt;
use crate::interpret::sp_stmts;
use crate::interpret::sp_while;
use crate::ast::AssignExpr;
use crate::ast::BinaryExpr;
use crate::ast::Block;
use crate::ast::Expr;
use crate::ast::ExprRef;
use crate::ast::ExprStmt;
use crate::ast::FunCall;
use crate::ast::GroupExpr;
use crate::ast::IfStmt;
use crate::ast::PrintStmt;
use crate::ast::ReturnStmt;
use crate::ast::Stmt;
use crate::ast::StmtRef;
use crate::ast::UnaryExpr;
use crate::ast::VarDecl;
use crate::ast::WhileStmt;
use crate::diag::DiagModel;
use crate::function::CodeModel;
use crate::numtext::is_num_text;
use crate::numtext::num_text_val;
use crate::token::Token;
use crate::token::TokenKind;
use crate::value::Val;
use crate::value::sp_binary_op;
use crate::value::truthy;
use crate::value::val_eq;

verus! {

/// A number literal whose text is valid numeric text evaluates, in any
/// engine state, to exactly the parsed value, with no effect on the state.
pub proof fn lemma_number_literal(m: StateModel, t: Token)
    requires
        t.kind == TokenKind::Number,
        is_num_text(t.text@),
    ensures
        sp_literal(m, t) == (m, Ok::<Val, Halt>(Val::Num(num_text_val(t.text@)))),
{
}

/// A string literal evaluates to its token text with exactly the first and
/// last character (the delimiting quotes) stripped, in any engine state.
pub proof fn lemma_string_literal(m: StateModel, t: Token)
    requires
        t.kind == TokenKind::String,
        t.text@.len() >= 2,
    ensures
        sp_literal(m, t) == (
            m,
            Ok::<Val, Halt>(Val::Str(t.text@.subrange(1, t.text@.len() - 1))),
        ),
{
}

/// Truthiness: nil and false are falsy; every number (zero included),
/// every string (the empty string included), and true are truthy.
pub proof fn lemma_truthiness()
    ensures
        !truthy(Val::Nil),
        !truthy(Val::Bool(false)),
        truthy(Val::Bool(true)),
        forall|n: i64| #[trigger] truthy(Val::Num(n)),
        forall|s: Seq<char>| #[trigger] truthy(Val::Str(s)),
{
}

/// `+` adds two numbers, concatenates two strings, and is a type error on
/// every other pairing of operands.
pub proof fn lemma_plus_semantics(a: Val, b: Val)
    ensures
        sp_binary_op(TokenKind::Plus, a, b) == (match (a, b) {
            (Val::Num(x), Val::Num(y)) => Ok::<Val, ErrKind>(Val::Num(x.wrapping_add(y))),
            (Val::Str(x), Val::Str(y)) => Ok::<Val, ErrKind>(Val::Str(x + y)),
            _ => Err::<Val, ErrKind>(ErrKind::RuntimeType),
        }),
{
}

/// Equality never coerces across variants: a number never equals a string,
/// two numbers are equal exactly when their values are, and nil equals nil.
pub proof fn lemma_equality_no_coercion()
    ensures
        forall|n: i64, s: Seq<char>| !(#[trigger] val_eq(Val::Num(n), Val::Str(s))),
        forall|n: i64, k: i64| #[trigger] val_eq(Val::Num(n), Val::Num(k)) == (n == k),
        val_eq(Val::Nil, Val::Nil),
{
}

/// A `break` raised by the body of a while loop is consumed by that loop
/// and by no enclosing construct: the loop itself completes normally.
pub proof fn lemma_while_consumes_break(m: StateModel, w: WhileStmt, fuel: nat)
    requires
        fuel > 0,
        ({
            let (m1, c) = sp_expr(m, *w.expr, fuel);
            c matches Ok(v) && truthy(v) && sp_stmt(m1, *w.stmt, fuel).1 == Ok::<OutModel, Halt>(
                OutModel::Break,
            )
        }),
    ensures
        sp_while(m, w, fuel).1 == Ok::<OutModel, Halt>(OutModel::Norm(Val::Nil)),
{
}

/// A `return` raised by the body of a while loop passes the loop unchanged:
/// it terminates the enclosing function body, not just the loop.
pub proof fn lemma_while_forwards_return(m: StateModel, w: WhileStmt, fuel: nat, v: Val)
    requires
        fuel > 0,
        ({
            let (m1, c) = sp_expr(m, *w.expr, fuel);
            c matches Ok(cv) && truthy(cv) && sp_stmt(m1, *w.stmt, fuel).1 == Ok::<OutModel, Halt>(
                OutModel::Return(v),
            )
        }),
    ensures
        sp_while(m, w, fuel).1 == Ok::<OutModel, Halt>(OutModel::Return(v)),
{
}

/// A `return` raised by a statement of a sequence stops the sequence: the
/// statements after it are never run.
pub proof fn lemma_return_skips_rest(m: StateModel, ss: Seq<StmtRef>, i: int, fuel: nat, v: Val)
    requires
        fuel > 0,
        0 <= i < ss.len(),
        sp_stmt(m, *ss[i], fuel).1 == Ok::<OutModel, Halt>(OutModel::Return(v)),
    ensures
        sp_stmts(m, ss, i, fuel) == (sp_stmt(m, *ss[i], fuel).0, Ok::<OutModel, Halt>(
            OutModel::Return(v),
        )),
{
}

/// Assignment walks exactly the chain that lookup walks: it fails precisely
/// on names with no binding in any enclosing scope, and a failed assignment
/// changes nothing - in particular it never creates the binding.
pub proof fn lemma_assign_unbound(m: StateModel, idx: int, name: Seq<char>, v: Val)
    ensures
        (sp_lookup(m, idx, name) is None) <==> !sp_assign(m, idx, name, v).1,
        !sp_assign(m, idx, name, v).1 ==> sp_assign(m, idx, name, v).0 == m,
    decreases idx,
{
    if 0 <= idx < m.scopes.len() {
        let sc = m.scopes[idx];
        match sp_find(sc.vars, name, 0) {
            Some(_) => {},
            None => {
                match sc.parent {
                    Some(p) => {
                        if 0 <= p < idx {
                            lemma_assign_unbound(m, p, name, v);
                        }
                    },
                    None => {},
                }
            },
        }
    }
}


/// Helper: in a binding list where the first match for `name` from the
/// front is at `j`, overwriting position `j` keeps it the first match.
proof fn lemma_find_after_update(
    vars: Seq<(Seq<char>, Val)>,
    name: Seq<char>,
    v: Val,
    i: int,
    j: int,
)
    requires
        0 <= i,
        sp_find(vars, name, i) == Some(j),
    ensures
        i <= j < vars.len(),
        sp_find(vars.update(j, (name, v)), name, i) == Some(j),
    decreases vars.len() - i,
{
    if i < vars.len() {
        if !(vars[i].0 == name) {
            lemma_find_after_update(vars, name, v, i + 1, j);
        }
    }
}

/// Helper: a binding list with no match for `name` from position `i` on
/// finds a freshly pushed binding of `name` at the end.
proof fn lemma_find_after_push(vars: Seq<(Seq<char>, Val)>, name: Seq<char>, v: Val, i: int)
    requires
        0 <= i <= vars.len(),
        sp_find(vars, name, i) is None,
    ensures
        sp_find(vars.push((name, v)), name, i) == Some(vars.len() as int),
    decreases vars.len() - i,
{
    if i < vars.len() {
        lemma_find_after_push(vars, name, v, i + 1);
    } else {
        assert(vars.push((name, v))[i].0 == name);
    }
}

/// Defining a name in the current scope makes it the binding that lookup
/// finds there: `get` after `define` yields the defined value.
pub proof fn lemma_lookup_after_define(m: StateModel, name: Seq<char>, v: Val)
    requires
        0 <= m.cur < m.scopes.len(),
    ensures
        sp_lookup(sp_define(m, name, v), sp_define(m, name, v).cur, name) == Some(v),
{
    let sc = m.scopes[m.cur];
    let m2 = sp_define(m, name, v);
    match sp_find(sc.vars, name, 0) {
        Some(j) => {
            lemma_find_after_update(sc.vars, name, v, 0, j);
            assert(m2.scopes[m2.cur].vars[j] == (name, v));
        },
        None => {
            lemma_find_after_push(sc.vars, name, v, 0);
            assert(m2.scopes[m2.cur].vars[sc.vars.len() as int] == (name, v));
        },
    }
}


/// Helper: a successful find returns a position holding the searched name.
proof fn lemma_find_props(vars: Seq<(Seq<char>, Val)>, name: Seq<char>, i: int, j: int)
    requires
        0 <= i,
        sp_find(vars, name, i) == Some(j),
    ensures
        i <= j < vars.len(),
        vars[j].0 == name,
    decreases vars.len() - i,
{
    if i < vars.len() {
        if !(vars[i].0 == name) {
            lemma_find_props(vars, name, i + 1, j);
        }
    }
}

/// Helper: overwriting the binding at a position whose key is `name` does
/// not change what a search for a different name finds.
proof fn lemma_find_other_name(
    vars: Seq<(Seq<char>, Val)>,
    name: Seq<char>,
    name2: Seq<char>,
    v: Val,
    j: int,
    i: int,
)
    requires
        0 <= i,
        0 <= j < vars.len(),
        vars[j].0 == name,
        name2 != name,
    ensures
        sp_find(vars.update(j, (name, v)), name2, i) == sp_find(vars, name2, i),
    decreases vars.len() - i,
{
    if i < vars.len() {
        lemma_find_other_name(vars, name, name2, v, j, i + 1);
    }
}

/// Helper: after an assignment, every scope keeps its parent link, and for
/// any other name it keeps both the position a search finds and the binding
/// at that position.
proof fn lemma_assign_scope_shape(
    m: StateModel,
    idx: int,
    name: Seq<char>,
    v: Val,
    name2: Seq<char>,
    s: int,
)
    requires
        name2 != name,
        0 <= s < m.scopes.len(),
    ensures
        sp_assign(m, idx, name, v).0.scopes.len() == m.scopes.len(),
        sp_assign(m, idx, name, v).0.scopes[s].parent == m.scopes[s].parent,
        sp_find(sp_assign(m, idx, name, v).0.scopes[s].vars, name2, 0) == sp_find(
            m.scopes[s].vars,
            name2,
            0,
        ),
        sp_find(m.scopes[s].vars, name2, 0) matches Some(j2) ==> sp_assign(
            m,
            idx,
            name,
            v,
        ).0.scopes[s].vars[j2] == m.scopes[s].vars[j2],
    decreases idx,
{
    if 0 <= idx < m.scopes.len() {
        let sc = m.scopes[idx];
        match sp_find(sc.vars, name, 0) {
            Some(j) => {
                lemma_find_props(sc.vars, name, 0, j);
                if s == idx {
                    lemma_find_other_name(sc.vars, name, name2, v, j, 0);
                    match sp_find(sc.vars, name2, 0) {
                        Some(j2) => {
                            lemma_find_props(sc.vars, name2, 0, j2);
                            assert(j2 != j);
                        },
                        None => {},
                    }
                }
            },
            None => {
                match sc.parent {
                    Some(p) => {
                        if 0 <= p < idx {
                            lemma_assign_scope_shape(m, p, name, v, name2, s);
                        }
                    },
                    None => {},
                }
            },
        }
    }
}

/// Assigning to one name never disturbs another: after any assignment of
/// `name`, looking any different name up from any scope yields exactly what
/// it yielded before.  Closures over separate captured variables therefore
/// cannot interfere with each other through assignment.
pub proof fn lemma_assign_preserves_other_names(
    m: StateModel,
    idx: int,
    name: Seq<char>,
    v: Val,
    name2: Seq<char>,
    k: int,
)
    requires
        name2 != name,
    ensures
        sp_lookup(sp_assign(m, idx, name, v).0, k, name2) == sp_lookup(m, k, name2),
    decreases k,
{
    let m2 = sp_assign(m, idx, name, v).0;
    if 0 <= k < m.scopes.len() {
        lemma_assign_scope_shape(m, idx, name, v, name2, k);
        match sp_find(m.scopes[k].vars, name2, 0) {
            Some(j2) => {
                lemma_find_props(m.scopes[k].vars, name2, 0, j2);
            },
            None => {
                match m.scopes[k].parent {
                    Some(p) => {
                        if 0 <= p < k {
                            lemma_assign_preserves_other_names(m, idx, name, v, name2, p);
                        }
                    },
                    None => {},
                }
            },
        }
    } else {
        assert(m2.scopes.len() == m.scopes.len()) by {
            if 0 <= idx < m.scopes.len() {
                lemma_assign_len(m, idx, name, v);
            }
        }
    }
}

/// Helper: assignment never changes how many scopes there are.
proof fn lemma_assign_len(m: StateModel, idx: int, name: Seq<char>, v: Val)
    ensures
        sp_assign(m, idx, name, v).0.scopes.len() == m.scopes.len(),
    decreases idx,
{
    if 0 <= idx < m.scopes.len() {
        let sc = m.scopes[idx];
        match sp_find(sc.vars, name, 0) {
            Some(_) => {},
            None => {
                match sc.parent {
                    Some(p) => {
                        if 0 <= p < idx {
                            lemma_assign_len(m, p, name, v);
                        }
                    },
                    None => {},
                }
            },
        }
    }
}


/// Helper: an assignment rewrites at most the scope where it found the
/// binding; every scope with no binding of the name is untouched, and the
/// number of scopes never changes.
proof fn lemma_assign_touches_one(m: StateModel, idx: int, name: Seq<char>, v: Val)
    ensures
        sp_assign(m, idx, name, v).0.scopes.len() == m.scopes.len(),
        sp_assign(m, idx, name, v).0.cur == m.cur,
        sp_assign(m, idx, name, v).0.funs == m.funs,
        forall|s: int|
            0 <= s < m.scopes.len() && (#[trigger] sp_find(m.scopes[s].vars, name, 0))
                is None ==> sp_assign(m, idx, name, v).0.scopes[s] == m.scopes[s],
    decreases idx,
{
    if 0 <= idx < m.scopes.len() {
        let sc = m.scopes[idx];
        match sp_find(sc.vars, name, 0) {
            Some(_) => {},
            None => {
                match sc.parent {
                    Some(p) => {
                        if 0 <= p < idx {
                            lemma_assign_touches_one(m, p, name, v);
                        }
                    },
                    None => {},
                }
            },
        }
    }
}

/// An assignment that found its binding is visible to the next lookup: the
/// walk from the same scope now yields the assigned value.  This is what
/// lets one call of a closure see the state a previous call wrote.
pub proof fn lemma_assign_then_lookup(m: StateModel, idx: int, name: Seq<char>, v: Val)
    requires
        sp_assign(m, idx, name, v).1,
    ensures
        sp_lookup(sp_assign(m, idx, name, v).0, idx, name) == Some(v),
    decreases idx,
{
    let m2 = sp_assign(m, idx, name, v).0;
    if 0 <= idx < m.scopes.len() {
        let sc = m.scopes[idx];
        match sp_find(sc.vars, name, 0) {
            Some(j) => {
                lemma_find_props(sc.vars, name, 0, j);
                lemma_find_after_update(sc.vars, name, v, 0, j);
                assert(m2.scopes[idx].vars[j] == (name, v));
            },
            None => {
                match sc.parent {
                    Some(p) => {
                        if 0 <= p < idx {
                            lemma_assign_then_lookup(m, p, name, v);
                            lemma_assign_touches_one(m, p, name, v);
                            assert(m2.scopes[idx] == m.scopes[idx]);
                        }
                    },
                    None => {},
                }
            },
        }
    }
}

/// Appending scopes (as block entry and calls do) never changes what lookup
/// sees from an already-existing scope: a captured environment reads the
/// same bindings however deep the evaluation has gone since.
pub proof fn lemma_push_scope_preserves_lookup(
    m: StateModel,
    parent: Option<int>,
    k: int,
    name: Seq<char>,
)
    requires
        0 <= k < m.scopes.len(),
        state_wf(m),
    ensures
        sp_lookup(sp_push_scope(m, parent), k, name) == sp_lookup(m, k, name),
    decreases k,
{
    let m2 = sp_push_scope(m, parent);
    assert(m2.scopes[k] == m.scopes[k]);
    match sp_find(m.scopes[k].vars, name, 0) {
        Some(_) => {},
        None => {
            match m.scopes[k].parent {
                Some(p) => {
                    assert(scope_wf(m.scopes[k], k, m));
                    if 0 <= p < k {
                        lemma_push_scope_preserves_lookup(m, parent, p, name);
                    }
                },
                None => {},
            }
        },
    }
}


/// The reporting discipline of one evaluation step: success and budget
/// exhaustion leave the diagnostic log untouched; a fault appends exactly
/// one entry, at the line the fault carries, and nothing else.
pub open spec fn reported_once<A>(m: StateModel, m2: StateModel, r: Result<A, Halt>) -> bool {
    match r {
        Ok(_) => m2.diags == m.diags,
        Err(Halt::Exhausted) => m2.diags == m.diags,
        Err(Halt::Fault(f)) => m2.diags == m.diags.push(
            DiagModel { line: f.line, message: m2.diags.last().message },
        ),
    }
}

/// Ghost deref of a shared expression node, for use in proof code.
spec fn xe(r: &ExprRef) -> Expr {
    **r
}

/// Ghost deref of a shared statement node, for use in proof code.
spec fn xs(r: &StmtRef) -> Stmt {
    **r
}

/// Ghost read of a borrowed statement, for use in proof code.
spec fn st_val(r: &Stmt) -> Stmt {
    *r
}

/// Ghost read of a borrowed expression, for use in proof code.
spec fn ex_val(r: &Expr) -> Expr {
    *r
}

/// Helper: assignment never touches the diagnostic log.
proof fn lemma_diag_assign(m: StateModel, idx: int, name: Seq<char>, v: Val)
    ensures
        sp_assign(m, idx, name, v).0.diags == m.diags,
    decreases idx,
{
    if 0 <= idx < m.scopes.len() {
        let sc = m.scopes[idx];
        match sp_find(sc.vars, name, 0) {
            Some(_) => {},
            None => {
                match sc.parent {
                    Some(p) => {
                        if 0 <= p < idx {
                            lemma_diag_assign(m, p, name, v);
                        }
                    },
                    None => {},
                }
            },
        }
    }
}

/// Helper: parameter binding never touches the diagnostic log.
proof fn lemma_diag_bind(m: StateModel, params: Seq<Seq<char>>, argv: Seq<Val>, i: int)
    ensures
        sp_bind(m, params, argv, i).diags == m.diags,
    decreases params.len() - i,
{
    if 0 <= i < params.len() && i < argv.len() {
        lemma_diag_bind(sp_define(m, params[i], argv[i]), params, argv, i + 1);
    }
}

proof fn lemma_diag_expr(m: StateModel, e: Expr, fuel: nat)
    ensures
        ({
            let (m2, r) = sp_expr(m, e, fuel);
            reported_once(m, m2, r)
        }),
    decreases fuel, 0int,
{
    if fuel != 0 {
        let f = (fuel - 1) as nat;
        match e {
            Expr::Literal(_) => {},
            Expr::Group(g) => lemma_diag_group(m, g, f),
            Expr::Unary(u) => lemma_diag_unary(m, u, f),
            Expr::Binary(b) => lemma_diag_binary(m, b, f),
            Expr::Assign(a) => lemma_diag_assign_expr(m, a, f),
            Expr::Call(c) => lemma_diag_call_expr(m, c, f),
            Expr::Lambda(_) => {},
        }
    }
}

proof fn lemma_diag_group(m: StateModel, g: GroupExpr, fuel: nat)
    ensures
        ({
            let (m2, r) = sp_group(m, g, fuel);
            reported_once(m, m2, r)
        }),
    decreases fuel, 2int,
{
    lemma_diag_expr(m, xe(&g.expr), fuel);
}

proof fn lemma_diag_unary(m: StateModel, u: UnaryExpr, fuel: nat)
    ensures
        ({
            let (m2, r) = sp_unary(m, u, fuel);
            reported_once(m, m2, r)
        }),
    decreases fuel, 2int,
{
    lemma_diag_expr(m, xe(&u.expr), fuel);
}

proof fn lemma_diag_binary(m: StateModel, b: BinaryExpr, fuel: nat)
    ensures
        ({
            let (m2, r) = sp_binary(m, b, fuel);
            reported_once(m, m2, r)
        }),
    decreases fuel, 2int,
{
    lemma_diag_expr(m, xe(&b.lexpr), fuel);
    let (m1, r1) = sp_expr(m, xe(&b.lexpr), fuel);
    if r1 is Ok {
        lemma_diag_expr(m1, xe(&b.rexpr), fuel);
    }
}

proof fn lemma_diag_assign_expr(m: StateModel, a: AssignExpr, fuel: nat)
    ensures
        ({
            let (m2, r) = sp_assign_expr(m, a, fuel);
            reported_once(m, m2, r)
        }),
    decreases fuel, 2int,
{
    lemma_diag_expr(m, xe(&a.expr), fuel);
    let (m1, r1) = sp_expr(m, xe(&a.expr), fuel);
    match r1 {
        Ok(v) => {
            lemma_diag_assign(m1, m1.cur, a.variable.text@, v);
        },
        Err(_) => {},
    }
}

proof fn lemma_diag_call_expr(m: StateModel, c: FunCall, fuel: nat)
    ensures
        ({
            let (m2, r) = sp_call_expr(m, c, fuel);
            reported_once(m, m2, r)
        }),
    decreases fuel, 2int,
{
    lemma_diag_expr(m, xe(&c.callee), fuel);
    let (m1, r1) = sp_expr(m, xe(&c.callee), fuel);
    match r1 {
        Ok(v) => {
            lemma_diag_args(m1, c.args@, 0, fuel);
            let (m2, r2) = sp_args(m1, c.args@, 0, fuel);
            match r2 {
                Ok(argv) => {
                    match v {
                        Val::Fun(i) => lemma_diag_invoke(m2, i, argv, c.line, fuel),
                        _ => {},
                    }
                },
                Err(_) => {},
            }
        },
        Err(_) => {},
    }
}

proof fn lemma_diag_args(m: StateModel, args: Seq<ExprRef>, i: int, fuel: nat)
    ensures
        ({
            let (m2, r) = sp_args(m, args, i, fuel);
            reported_once(m, m2, r)
        }),
    decreases fuel, 1int,
{
    if fuel != 0 && 0 <= i < args.len() {
        lemma_diag_expr(m, xe(&args[i]), fuel);
        let (m1, r1) = sp_expr(m, xe(&args[i]), fuel);
        if r1 is Ok {
            lemma_diag_args(m1, args, i + 1, (fuel - 1) as nat);
        }
    }
}

proof fn lemma_diag_invoke(m: StateModel, fi: int, argv: Seq<Val>, line: u64, fuel: nat)
    ensures
        ({
            let (m2, r) = sp_invoke(m, fi, argv, line, fuel);
            reported_once(m, m2, r)
        }),
    decreases fuel, 1int,
{
    if 0 <= fi < m.funs.len() {
        let fm = m.funs[fi];
        match fm.code {
            CodeModel::Native(_) => {},
            CodeModel::User(body) => {
                if fm.params.len() == argv.len() {
                    let parent = match fm.closure {
                        Some(c) => c,
                        None => 0int,
                    };
                    let m1 = sp_push_scope(m, Some(parent));
                    lemma_diag_bind(m1, fm.params, argv, 0);
                    let mb = sp_bind(m1, fm.params, argv, 0);
                    lemma_diag_stmt(mb, xs(&body), fuel);
                }
            },
        }
    }
}

proof fn lemma_diag_stmt(m: StateModel, s: Stmt, fuel: nat)
    ensures
        ({
            let (m2, r) = sp_stmt(m, s, fuel);
            reported_once(m, m2, r)
        }),
    decreases fuel, 0int,
{
    if fuel != 0 {
        let f = (fuel - 1) as nat;
        match s {
            Stmt::Expr(es) => lemma_diag_expr_stmt(m, es, f),
            Stmt::Print(ps) => lemma_diag_print_stmt(m, ps, f),
            Stmt::Var(vd) => lemma_diag_var_decl(m, vd, f),
            Stmt::Fun(_) => {},
            Stmt::Block(b) => lemma_diag_block(m, b, f),
            Stmt::Program(p) => lemma_diag_stmts(m, p.decs@, 0, f),
            Stmt::If(i) => lemma_diag_if(m, i, f),
            Stmt::While(w) => lemma_diag_while(m, w, f),
            Stmt::Break(_) => {},
            Stmt::Return(r) => lemma_diag_return(m, r, f),
        }
    }
}

proof fn lemma_diag_expr_stmt(m: StateModel, s: ExprStmt, fuel: nat)
    ensures
        ({
            let (m2, r) = sp_expr_stmt(m, s, fuel);
            reported_once(m, m2, r)
        }),
    decreases fuel, 2int,
{
    lemma_diag_expr(m, xe(&s.expr), fuel);
}

proof fn lemma_diag_print_stmt(m: StateModel, s: PrintStmt, fuel: nat)
    ensures
        ({
            let (m2, r) = sp_print_stmt(m, s, fuel);
            reported_once(m, m2, r)
        }),
    decreases fuel, 2int,
{
    lemma_diag_expr(m, xe(&s.expr), fuel);
}

proof fn lemma_diag_var_decl(m: StateModel, s: VarDecl, fuel: nat)
    ensures
        ({
            let (m2, r) = sp_var_decl(m, s, fuel);
            reported_once(m, m2, r)
        }),
    decreases fuel, 2int,
{
    match s.expr {
        Some(e) => lemma_diag_expr(m, xe(&e), fuel),
        None => {},
    }
}

proof fn lemma_diag_block(m: StateModel, b: Block, fuel: nat)
    ensures
        ({
            let (m2, r) = sp_block(m, b, fuel);
            reported_once(m, m2, r)
        }),
    decreases fuel, 2int,
{
    let m1 = sp_push_scope(m, Some(m.cur));
    lemma_diag_stmts(m1, b.decs@, 0, fuel);
}

proof fn lemma_diag_stmts(m: StateModel, ss: Seq<StmtRef>, i: int, fuel: nat)
    ensures
        ({
            let (m2, r) = sp_stmts(m, ss, i, fuel);
            reported_once(m, m2, r)
        }),
    decreases fuel, 1int,
{
    if fuel != 0 && 0 <= i < ss.len() {
        lemma_diag_stmt(m, xs(&ss[i]), fuel);
        let (m1, r1) = sp_stmt(m, xs(&ss[i]), fuel);
        if r1 matches Ok(OutModel::Norm(_)) {
            lemma_diag_stmts(m1, ss, i + 1, (fuel - 1) as nat);
        }
    }
}

proof fn lemma_diag_if(m: StateModel, s: IfStmt, fuel: nat)
    ensures
        ({
            let (m2, r) = sp_if(m, s, fuel);
            reported_once(m, m2, r)
        }),
    decreases fuel, 2int,
{
    lemma_diag_expr(m, xe(&s.expr), fuel);
    let (m1, r1) = sp_expr(m, xe(&s.expr), fuel);
    match r1 {
        Ok(v) => {
            if truthy(v) {
                lemma_diag_stmt(m1, xs(&s.stmt), fuel);
            } else {
                match s.elstmt {
                    Some(el) => lemma_diag_stmt(m1, xs(&el), fuel),
                    None => {},
                }
            }
        },
        Err(_) => {},
    }
}

proof fn lemma_diag_while(m: StateModel, w: WhileStmt, fuel: nat)
    ensures
        ({
            let (m2, r) = sp_while(m, w, fuel);
            reported_once(m, m2, r)
        }),
    decreases fuel, 2int,
{
    if fuel != 0 {
        lemma_diag_expr(m, xe(&w.expr), fuel);
        let (m1, r1) = sp_expr(m, xe(&w.expr), fuel);
        match r1 {
            Ok(v) => {
                if truthy(v) {
                    lemma_diag_stmt(m1, xs(&w.stmt), fuel);
                    let (m2, r2) = sp_stmt(m1, xs(&w.stmt), fuel);
                    if r2 matches Ok(OutModel::Norm(_)) {
                        lemma_diag_while(m2, w, (fuel - 1) as nat);
                    }
                }
            },
            Err(_) => {},
        }
    }
}

proof fn lemma_diag_return(m: StateModel, s: ReturnStmt, fuel: nat)
    ensures
        ({
            let (m2, r) = sp_return(m, s, fuel);
            reported_once(m, m2, r)
        }),
    decreases fuel, 2int,
{
    match s.expr {
        Some(e) => lemma_diag_expr(m, xe(&e), fuel),
        None => {},
    }
}

/// Every runtime failure is reported exactly once: executing any statement
/// either leaves the diagnostic log untouched (on success or on budget
/// exhaustion) or, on a fault, appends exactly one entry, at the line the
/// propagated failure carries.
pub proof fn lemma_stmt_reports_once(m: StateModel, s: &Stmt, fuel: nat)
    ensures
        ({
            let (m2, r) = sp_stmt(m, *s, fuel);
            reported_once(m, m2, r)
        }),
{
    lemma_diag_stmt(m, st_val(s), fuel);
}

/// Every runtime failure during expression evaluation is reported exactly
/// once, in the same sense as for statements.
pub proof fn lemma_expr_reports_once(m: StateModel, e: &Expr, fuel: nat)
    ensures
        ({
            let (m2, r) = sp_expr(m, *e, fuel);
            reported_once(m, m2, r)
        }),
{
    lemma_diag_expr(m, ex_val(e), fuel);
}


/// Helper: pushing a scope with a valid parent preserves the invariant.
proof fn lemma_wf_push_scope(m: StateModel, parent: int)
    requires
        state_wf(m),
        0 <= parent < m.scopes.len(),
    ensures
        state_wf(sp_push_scope(m, Some(parent))),
{
    let m2 = sp_push_scope(m, Some(parent));
    assert forall|i: int| 0 <= i < m2.scopes.len() implies scope_wf(
        #[trigger] m2.scopes[i],
        i,
        m2,
    ) by {
        if i < m.scopes.len() {
            assert(scope_wf(m.scopes[i], i, m));
            assert forall|j: int| 0 <= j < m2.scopes[i].vars.len() implies val_wf(
                (#[trigger] m2.scopes[i].vars[j]).1,
                m2,
            ) by {
                assert(val_wf(m.scopes[i].vars[j].1, m));
            }
        }
    }
    assert forall|i: int| 0 <= i < m2.funs.len() implies fun_wf(#[trigger] m2.funs[i], m2) by {
        assert(fun_wf(m.funs[i], m));
    }
}

/// Helper: assigning a well-formed value preserves the invariant.
proof fn lemma_wf_assign(m: StateModel, idx: int, name: Seq<char>, v: Val)
    requires
        state_wf(m),
        val_wf(v, m),
    ensures
        state_wf(sp_assign(m, idx, name, v).0),
    decreases idx,
{
    let m2 = sp_assign(m, idx, name, v).0;
    if 0 <= idx < m.scopes.len() {
        let sc = m.scopes[idx];
        match sp_find(sc.vars, name, 0) {
            Some(j) => {
                lemma_find_props(sc.vars, name, 0, j);
                lemma_assign_touches_one(m, idx, name, v);
                assert forall|i: int| 0 <= i < m2.scopes.len() implies scope_wf(
                    #[trigger] m2.scopes[i],
                    i,
                    m2,
                ) by {
                    assert(scope_wf(m.scopes[i], i, m));
                    assert forall|jj: int| 0 <= jj < m2.scopes[i].vars.len() implies val_wf(
                        (#[trigger] m2.scopes[i].vars[jj]).1,
                        m2,
                    ) by {
                        if !(i == idx && jj == j) {
                            assert(val_wf(m.scopes[i].vars[jj].1, m));
                        }
                    }
                }
                assert forall|i: int| 0 <= i < m2.funs.len() implies fun_wf(
                    #[trigger] m2.funs[i],
                    m2,
                ) by {
                    assert(fun_wf(m.funs[i], m));
                }
            },
            None => {
                match sc.parent {
                    Some(p) => {
                        if 0 <= p < idx {
                            lemma_wf_assign(m, p, name, v);
                        }
                    },
                    None => {},
                }
            },
        }
    }
}

/// Helper: lookup reads only the scope table, never the rest of the state.
proof fn lemma_lookup_scopes_only(m: StateModel, m2: StateModel, idx: int, name: Seq<char>)
    requires
        m.scopes == m2.scopes,
    ensures
        sp_lookup(m, idx, name) == sp_lookup(m2, idx, name),
    decreases idx,
{
    if 0 <= idx < m.scopes.len() {
        let sc = m.scopes[idx];
        match sp_find(sc.vars, name, 0) {
            Some(_) => {},
            None => {
                match sc.parent {
                    Some(p) => {
                        if 0 <= p < idx {
                            lemma_lookup_scopes_only(m, m2, p, name);
                        }
                    },
                    None => {},
                }
            },
        }
    }
}

/// The shape of a counter closure's body: one block that assigns
/// `name + 1` to `name` and then returns `name`.
pub open spec fn counter_body(body: Stmt, name: Seq<char>) -> bool {
    &&& body matches Stmt::Block(blk)
    &&& blk.decs@.len() == 2
    &&& *blk.decs@[0] matches Stmt::Expr(es)
    &&& *es.expr matches Expr::Assign(asn)
    &&& asn.variable.text@ == name
    &&& *asn.expr matches Expr::Binary(bx)
    &&& bx.token.kind == TokenKind::Plus
    &&& *bx.lexpr matches Expr::Literal(ln)
    &&& ln.token.kind == TokenKind::Identifier
    &&& ln.token.text@ == name
    &&& *bx.rexpr matches Expr::Literal(lo)
    &&& lo.token.kind == TokenKind::Number
    &&& is_num_text(lo.token.text@)
    &&& num_text_val(lo.token.text@) == 1
    &&& *blk.decs@[1] matches Stmt::Return(rs)
    &&& rs.expr matches Some(re)
    &&& *re matches Expr::Literal(lr)
    &&& lr.token.kind == TokenKind::Identifier
    &&& lr.token.text@ == name
}

/// One call of a counter closure: a parameterless user function whose body
/// increments a captured variable and returns it yields exactly one more
/// than the variable held, and stores that value back through the shared
/// captured scope chain, so a later call through the same closure yields
/// one more again -- successive calls return strictly increasing numbers.
/// The call touches no other name: every binding of any other name, in
/// every scope that existed before the call, reads exactly as before, so
/// an independently declared closure over a separate variable is
/// undisturbed.
pub proof fn lemma_counter_call(
    m: StateModel,
    fi: int,
    line: u64,
    fuel: nat,
    name: Seq<char>,
    c: int,
    k: i64,
)
    requires
        state_wf(m),
        0 <= fi < m.funs.len(),
        m.funs[fi].params.len() == 0,
        m.funs[fi].closure == Some(c),
        m.funs[fi].code matches CodeModel::User(body) && counter_body(*body, name),
        sp_lookup(m, c, name) == Some(Val::Num(k)),
        k < i64::MAX,
        fuel >= 5,
    ensures
        ({
            let (m6, r) = sp_invoke(m, fi, Seq::empty(), line, fuel);
            &&& r == Ok::<Val, Halt>(Val::Num((k + 1) as i64))
            &&& sp_lookup(m6, c, name) == Some(Val::Num((k + 1) as i64))
            &&& state_wf(m6)
            &&& m6.funs == m.funs
            &&& m6.cur == m.cur
            &&& m.scopes.len() <= m6.scopes.len()
            &&& forall|name2: Seq<char>, j: int|
                name2 != name && 0 <= j < m.scopes.len() ==> sp_lookup(m6, j, name2)
                    == #[trigger] sp_lookup(m, j, name2)
        }),
{
    assert(fun_wf(m.funs[fi], m));
    let fm = m.funs[fi];
    match fm.code {
        CodeModel::User(body) => {
            let m1 = sp_push_scope(m, Some(c));
            lemma_wf_push_scope(m, c);
            assert(sp_bind(m1, fm.params, Seq::empty(), 0) == m1);
            match xs(&body) {
                Stmt::Block(blk) => {
                    let m2 = sp_push_scope(m1, Some(m1.cur));
                    lemma_wf_push_scope(m1, m1.cur);
                    // The captured variable reads the same through the two
                    // fresh empty scopes.
                    lemma_push_scope_preserves_lookup(m, Some(c as int), c, name);
                    lemma_push_scope_preserves_lookup(m1, Some(m1.cur), c, name);
                    assert(sp_lookup(m2, c, name) == Some(Val::Num(k)));
                    assert(m2.scopes[m2.cur].vars.len() == 0);
                    assert(m2.scopes[m1.cur].vars.len() == 0);
                    assert(sp_lookup(m2, m1.cur, name) == Some(Val::Num(k)));
                    assert(sp_lookup(m2, m2.cur, name) == Some(Val::Num(k)));
                    // The first statement: name = name + 1.
                    let s1 = xs(&blk.decs@[0]);
                    match s1 {
                        Stmt::Expr(es) => {
                            match xe(&es.expr) {
                                Expr::Assign(asn) => {
                                    match xe(&asn.expr) {
                                        Expr::Binary(bx) => {
                                            let w = Val::Num((k + 1) as i64);
                                            let fb = (fuel - 4) as nat;
                                            assert(sp_expr(m2, xe(&bx.lexpr), fb) == (
                                                m2,
                                                Ok::<Val, Halt>(Val::Num(k)),
                                            ));
                                            assert(sp_expr(m2, xe(&bx.rexpr), fb) == (
                                                m2,
                                                Ok::<Val, Halt>(Val::Num(1 as i64)),
                                            ));
                                            assert(sp_binary_op(
                                                TokenKind::Plus,
                                                Val::Num(k),
                                                Val::Num(1 as i64),
                                            ) == Ok::<Val, ErrKind>(w));
                                            assert(sp_binary(m2, bx, fb) == (
                                                m2,
                                                Ok::<Val, Halt>(w),
                                            ));
                                            assert(sp_expr(m2, xe(&asn.expr), (fuel - 3) as nat)
                                                == (m2, Ok::<Val, Halt>(w)));
                                            // The assignment walks the two empty
                                            // scopes and rewrites the captured one.
                                            assert(sp_assign(m2, m2.cur, name, w) == sp_assign(
                                                m2,
                                                m1.cur,
                                                name,
                                                w,
                                            ));
                                            assert(sp_assign(m2, m1.cur, name, w) == sp_assign(
                                                m2,
                                                c,
                                                name,
                                                w,
                                            ));
                                            lemma_assign_unbound(m2, c, name, w);
                                            let m4 = sp_assign(m2, c, name, w).0;
                                            lemma_assign_then_lookup(m2, c, name, w);
                                            lemma_wf_assign(m2, c, name, w);
                                            lemma_assign_touches_one(m2, c, name, w);
                                            assert(sp_assign_expr(m2, asn, (fuel - 3) as nat) == (
                                                m4,
                                                Ok::<Val, Halt>(w),
                                            ));
                                            assert(sp_expr(m2, xe(&es.expr), (fuel - 2) as nat)
                                                == (m4, Ok::<Val, Halt>(w)));
                                            assert(sp_expr_stmt(m2, es, (fuel - 2) as nat) == (
                                                m4,
                                                Ok::<OutModel, Halt>(OutModel::Norm(w)),
                                            ));
                                            assert(sp_stmt(m2, s1, (fuel - 1) as nat) == (
                                                m4,
                                                Ok::<OutModel, Halt>(OutModel::Norm(w)),
                                            ));
                                            // The second statement returns the new
                                            // value, read back through the chain.
                                            assert(m4.scopes[m2.cur].vars.len() == 0);
                                            assert(m4.scopes[m1.cur].vars.len() == 0);
                                            assert(m4.cur == m2.cur);
                                            assert(sp_lookup(m4, c, name) == Some(w));
                                            assert(m4.scopes[m1.cur] == m2.scopes[m1.cur]);
                                            assert(m4.scopes[m2.cur] == m2.scopes[m2.cur]);
                                            assert(sp_lookup(m4, m1.cur, name) == Some(w));
                                            assert(sp_lookup(m4, m4.cur, name) == Some(w));
                                            let s2 = xs(&blk.decs@[1]);
                                            match s2 {
                                                Stmt::Return(rs) => {
                                                    assert(rs.expr matches Some(re) && sp_expr(
                                                        m4,
                                                        *re,
                                                        (fuel - 3) as nat,
                                                    ) == (m4, Ok::<Val, Halt>(w)));
                                                    assert(sp_return(m4, rs, (fuel - 3) as nat)
                                                        == (
                                                        m4,
                                                        Ok::<OutModel, Halt>(OutModel::Return(w)),
                                                    ));
                                                    assert(sp_stmt(m4, s2, (fuel - 2) as nat) == (
                                                        m4,
                                                        Ok::<OutModel, Halt>(OutModel::Return(w)),
                                                    ));
                                                },
                                                _ => {},
                                            }
                                            assert(sp_stmts(
                                                m4,
                                                blk.decs@,
                                                1,
                                                (fuel - 2) as nat,
                                            ) == (m4, Ok::<OutModel, Halt>(OutModel::Return(w))));
                                            assert(sp_stmts(
                                                m2,
                                                blk.decs@,
                                                0,
                                                (fuel - 1) as nat,
                                            ) == (m4, Ok::<OutModel, Halt>(OutModel::Return(w))));
                                            assert(sp_block(m1, blk, (fuel - 1) as nat) == (
                                                (StateModel { cur: m1.cur, ..m4 }),
                                                Ok::<OutModel, Halt>(OutModel::Return(w)),
                                            ));
                                            assert(sp_stmt(m1, xs(&body), fuel) == (
                                                (StateModel { cur: m1.cur, ..m4 }),
                                                Ok::<OutModel, Halt>(OutModel::Return(w)),
                                            ));
                                            let m6 = sp_invoke(m, fi, Seq::empty(), line, fuel).0;
                                            assert(m6 == (StateModel { cur: m.cur, ..m4 }));
                                            // Post-state facts.
                                            lemma_lookup_scopes_only(m4, m6, c, name);
                                            lemma_wf_with_cur(m4, m.cur);
                                            assert(state_wf(m6));
                                            assert forall|name2: Seq<char>, j: int|
                                                name2 != name && 0 <= j
                                                    < m.scopes.len() implies sp_lookup(
                                                m6,
                                                j,
                                                name2,
                                            ) == #[trigger] sp_lookup(m, j, name2) by {
                                                lemma_lookup_scopes_only(m4, m6, j, name2);
                                                lemma_assign_preserves_other_names(
                                                    m2,
                                                    c,
                                                    name,
                                                    w,
                                                    name2,
                                                    j,
                                                );
                                                lemma_push_scope_preserves_lookup(
                                                    m1,
                                                    Some(m1.cur),
                                                    j,
                                                    name2,
                                                );
                                                lemma_push_scope_preserves_lookup(
                                                    m,
                                                    Some(c as int),
                                                    j,
                                                    name2,
                                                );
                                            }
                                        },
                                        _ => {},
                                    }
                                },
                                _ => {},
                            }
                        },
                        _ => {},
                    }
                },
                _ => {},
            }
        },
        _ => {},
    }
}


/// Successive calls through the same counter closure yield strictly
/// increasing results: the first call returns one more than the captured
/// variable held, and a second call through the same shared environment
/// returns one more again.
pub proof fn lemma_counter_calls_increase(
    m: StateModel,
    fi: int,
    line: u64,
    fuel: nat,
    name: Seq<char>,
    c: int,
    k: i64,
)
    requires
        state_wf(m),
        0 <= fi < m.funs.len(),
        m.funs[fi].params.len() == 0,
        m.funs[fi].closure == Some(c),
        m.funs[fi].code matches CodeModel::User(body) && counter_body(*body, name),
        sp_lookup(m, c, name) == Some(Val::Num(k)),
        k < i64::MAX - 1,
        fuel >= 5,
    ensures
        ({
            let (m6, r1) = sp_invoke(m, fi, Seq::empty(), line, fuel);
            let (m7, r2) = sp_invoke(m6, fi, Seq::empty(), line, fuel);
            &&& r1 == Ok::<Val, Halt>(Val::Num((k + 1) as i64))
            &&& r2 == Ok::<Val, Halt>(Val::Num((k + 2) as i64))
        }),
{
    lemma_counter_call(m, fi, line, fuel, name, c, k);
    let m6 = sp_invoke(m, fi, Seq::empty(), line, fuel).0;
    lemma_counter_call(m6, fi, line, fuel, name, c, (k + 1) as i64);
}


/// Scopes that existed before a run keep their parent links, and a name
/// with no binding in one of them gains none, except possibly in the one
/// scope `ex` (statement runs may declare in the then-current scope).  The
/// current scope itself is restored by the run.
pub open spec fn no_new_bindings_except(m: StateModel, m2: StateModel, ex: int) -> bool {
    &&& m.scopes.len() <= m2.scopes.len()
    &&& m2.cur == m.cur
    &&& forall|s: int|
        0 <= s < m.scopes.len() ==> (#[trigger] m2.scopes[s]).parent == m.scopes[s].parent
    &&& forall|s: int, n: Seq<char>|
        0 <= s < m.scopes.len() && s != ex && sp_find(m.scopes[s].vars, n, 0) is None ==> (
        #[trigger] sp_find(m2.scopes[s].vars, n, 0)) is None
}

/// Helper: the no-new-bindings relation composes along a run.
proof fn lemma_nb_trans(m0: StateModel, m1: StateModel, m2: StateModel, ex: int)
    requires
        no_new_bindings_except(m0, m1, ex),
        no_new_bindings_except(m1, m2, ex),
    ensures
        no_new_bindings_except(m0, m2, ex),
{
    assert forall|s: int| 0 <= s < m0.scopes.len() implies (#[trigger] m2.scopes[s]).parent
        == m0.scopes[s].parent by {
        assert(m1.scopes[s].parent == m0.scopes[s].parent);
    }
    assert forall|s: int, n: Seq<char>|
        0 <= s < m0.scopes.len() && s != ex && sp_find(m0.scopes[s].vars, n, 0) is None implies (
    #[trigger] sp_find(m2.scopes[s].vars, n, 0)) is None by {
        assert(sp_find(m1.scopes[s].vars, n, 0) is None);
    }
}

/// Helper: assignment never creates a binding anywhere.
proof fn lemma_nb_assign(m: StateModel, idx: int, name: Seq<char>, v: Val)
    ensures
        no_new_bindings_except(m, sp_assign(m, idx, name, v).0, -1),
    decreases idx,
{
    let m2 = sp_assign(m, idx, name, v).0;
    if 0 <= idx < m.scopes.len() {
        let sc = m.scopes[idx];
        match sp_find(sc.vars, name, 0) {
            Some(j) => {
                lemma_find_props(sc.vars, name, 0, j);
                assert forall|s: int, n: Seq<char>|
                    0 <= s < m.scopes.len() && s != -1 && sp_find(m.scopes[s].vars, n, 0)
                        is None implies (#[trigger] sp_find(m2.scopes[s].vars, n, 0)) is None by {
                    if s == idx && n != name {
                        lemma_find_other_name(sc.vars, name, n, v, j, 0);
                    }
                }
            },
            None => {
                match sc.parent {
                    Some(p) => {
                        if 0 <= p < idx {
                            lemma_nb_assign(m, p, name, v);
                        }
                    },
                    None => {},
                }
            },
        }
    }
}

/// Helper: binding parameters declares only in the current scope.
proof fn lemma_nb_bind(m: StateModel, params: Seq<Seq<char>>, argv: Seq<Val>, i: int)
    ensures
        no_new_bindings_except(m, sp_bind(m, params, argv, i), m.cur),
    decreases params.len() - i,
{
    if 0 <= i < params.len() && i < argv.len() {
        let md = sp_define(m, params[i], argv[i]);
        lemma_nb_bind(md, params, argv, i + 1);
        lemma_nb_trans(m, md, sp_bind(md, params, argv, i + 1), m.cur);
    }
}

proof fn lemma_nb_expr(m: StateModel, e: Expr, fuel: nat)
    ensures
        no_new_bindings_except(m, sp_expr(m, e, fuel).0, -1),
    decreases fuel, 0int,
{
    if fuel != 0 {
        let f = (fuel - 1) as nat;
        match e {
            Expr::Literal(_) => {},
            Expr::Group(g) => lemma_nb_group(m, g, f),
            Expr::Unary(u) => lemma_nb_unary(m, u, f),
            Expr::Binary(b) => lemma_nb_binary(m, b, f),
            Expr::Assign(a) => lemma_nb_assign_expr(m, a, f),
            Expr::Call(c) => lemma_nb_call_expr(m, c, f),
            Expr::Lambda(_) => {},
        }
    }
}

proof fn lemma_nb_group(m: StateModel, g: GroupExpr, fuel: nat)
    ensures
        no_new_bindings_except(m, sp_group(m, g, fuel).0, -1),
    decreases fuel, 2int,
{
    lemma_nb_expr(m, xe(&g.expr), fuel);
}

proof fn lemma_nb_unary(m: StateModel, u: UnaryExpr, fuel: nat)
    ensures
        no_new_bindings_except(m, sp_unary(m, u, fuel).0, -1),
    decreases fuel, 2int,
{
    lemma_nb_expr(m, xe(&u.expr), fuel);
}

proof fn lemma_nb_binary(m: StateModel, b: BinaryExpr, fuel: nat)
    ensures
        no_new_bindings_except(m, sp_binary(m, b, fuel).0, -1),
    decreases fuel, 2int,
{
    lemma_nb_expr(m, xe(&b.lexpr), fuel);
    let (m1, r1) = sp_expr(m, xe(&b.lexpr), fuel);
    if r1 is Ok {
        lemma_nb_expr(m1, xe(&b.rexpr), fuel);
        lemma_nb_trans(m, m1, sp_expr(m1, xe(&b.rexpr), fuel).0, -1);
    }
}

proof fn lemma_nb_assign_expr(m: StateModel, a: AssignExpr, fuel: nat)
    ensures
        no_new_bindings_except(m, sp_assign_expr(m, a, fuel).0, -1),
    decreases fuel, 2int,
{
    lemma_nb_expr(m, xe(&a.expr), fuel);
    let (m1, r1) = sp_expr(m, xe(&a.expr), fuel);
    match r1 {
        Ok(v) => {
            lemma_nb_assign(m1, m1.cur, a.variable.text@, v);
            lemma_nb_trans(m, m1, sp_assign(m1, m1.cur, a.variable.text@, v).0, -1);
        },
        Err(_) => {},
    }
}

proof fn lemma_nb_call_expr(m: StateModel, c: FunCall, fuel: nat)
    ensures
        no_new_bindings_except(m, sp_call_expr(m, c, fuel).0, -1),
    decreases fuel, 2int,
{
    lemma_nb_expr(m, xe(&c.callee), fuel);
    let (m1, r1) = sp_expr(m, xe(&c.callee), fuel);
    match r1 {
        Ok(v) => {
            lemma_nb_args(m1, c.args@, 0, fuel);
            lemma_nb_trans(m, m1, sp_args(m1, c.args@, 0, fuel).0, -1);
            let (m2, r2) = sp_args(m1, c.args@, 0, fuel);
            match r2 {
                Ok(argv) => {
                    match v {
                        Val::Fun(i) => {
                            lemma_nb_invoke(m2, i, argv, c.line, fuel);
                            lemma_nb_trans(m, m2, sp_invoke(m2, i, argv, c.line, fuel).0, -1);
                        },
                        _ => {},
                    }
                },
                Err(_) => {},
            }
        },
        Err(_) => {},
    }
}

proof fn lemma_nb_args(m: StateModel, args: Seq<ExprRef>, i: int, fuel: nat)
    ensures
        no_new_bindings_except(m, sp_args(m, args, i, fuel).0, -1),
    decreases fuel, 1int,
{
    if fuel != 0 && 0 <= i < args.len() {
        lemma_nb_expr(m, xe(&args[i]), fuel);
        let (m1, r1) = sp_expr(m, xe(&args[i]), fuel);
        if r1 is Ok {
            lemma_nb_args(m1, args, i + 1, (fuel - 1) as nat);
            lemma_nb_trans(m, m1, sp_args(m1, args, i + 1, (fuel - 1) as nat).0, -1);
        }
    }
}

proof fn lemma_nb_invoke(m: StateModel, fi: int, argv: Seq<Val>, line: u64, fuel: nat)
    ensures
        no_new_bindings_except(m, sp_invoke(m, fi, argv, line, fuel).0, -1),
    decreases fuel, 1int,
{
    if 0 <= fi < m.funs.len() {
        let fm = m.funs[fi];
        match fm.code {
            CodeModel::Native(_) => {},
            CodeModel::User(body) => {
                if fm.params.len() == argv.len() {
                    let parent = match fm.closure {
                        Some(cc) => cc,
                        None => 0int,
                    };
                    let m1 = sp_push_scope(m, Some(parent));
                    lemma_nb_bind(m1, fm.params, argv, 0);
                    let mb = sp_bind(m1, fm.params, argv, 0);
                    lemma_nb_stmt(mb, xs(&body), fuel);
                    let (m3, r) = sp_stmt(mb, xs(&body), fuel);
                    let m4 = StateModel { cur: m.cur, ..m3 };
                    assert forall|s: int, n: Seq<char>|
                        0 <= s < m.scopes.len() && s != -1 && sp_find(m.scopes[s].vars, n, 0)
                            is None implies (#[trigger] sp_find(m4.scopes[s].vars, n, 0))
                        is None by {
                        assert(m1.scopes[s] == m.scopes[s]);
                        assert(sp_find(mb.scopes[s].vars, n, 0) is None);
                        assert(sp_find(m3.scopes[s].vars, n, 0) is None);
                    }
                    assert forall|s: int| 0 <= s < m.scopes.len() implies (
                    #[trigger] m4.scopes[s]).parent == m.scopes[s].parent by {
                        assert(m1.scopes[s] == m.scopes[s]);
                        assert(mb.scopes[s].parent == m1.scopes[s].parent);
                        assert(m3.scopes[s].parent == mb.scopes[s].parent);
                    }
                }
            },
        }
    }
}

proof fn lemma_nb_stmt(m: StateModel, s: Stmt, fuel: nat)
    ensures
        no_new_bindings_except(m, sp_stmt(m, s, fuel).0, m.cur),
    decreases fuel, 0int,
{
    if fuel != 0 {
        let f = (fuel - 1) as nat;
        match s {
            Stmt::Expr(es) => {
                lemma_nb_expr(m, xe(&es.expr), f);
            },
            Stmt::Print(ps) => {
                lemma_nb_expr(m, xe(&ps.expr), f);
            },
            Stmt::Var(vd) => lemma_nb_var_decl(m, vd, f),
            Stmt::Fun(_) => {},
            Stmt::Block(b) => lemma_nb_block(m, b, f),
            Stmt::Program(p) => lemma_nb_stmts(m, p.decs@, 0, f),
            Stmt::If(i) => lemma_nb_if(m, i, f),
            Stmt::While(w) => lemma_nb_while(m, w, f),
            Stmt::Break(_) => {},
            Stmt::Return(r) => {
                match r.expr {
                    Some(e) => lemma_nb_expr(m, xe(&e), f),
                    None => {},
                }
            },
        }
    }
}

proof fn lemma_nb_var_decl(m: StateModel, s: VarDecl, fuel: nat)
    ensures
        no_new_bindings_except(m, sp_var_decl(m, s, fuel).0, m.cur),
    decreases fuel, 2int,
{
    match s.expr {
        Some(e) => {
            lemma_nb_expr(m, xe(&e), fuel);
            let (m1, r1) = sp_expr(m, xe(&e), fuel);
            match r1 {
                Ok(v) => {
                    lemma_nb_trans(m, m1, sp_define(m1, s.variable.text@, v), m.cur);
                },
                Err(_) => {},
            }
        },
        None => {},
    }
}

proof fn lemma_nb_block(m: StateModel, b: Block, fuel: nat)
    ensures
        no_new_bindings_except(m, sp_block(m, b, fuel).0, -1),
    decreases fuel, 2int,
{
    let m1 = sp_push_scope(m, Some(m.cur));
    lemma_nb_stmts(m1, b.decs@, 0, fuel);
    let (m2, r) = sp_stmts(m1, b.decs@, 0, fuel);
    let m3 = StateModel { cur: m.cur, ..m2 };
    assert forall|s: int, n: Seq<char>|
        0 <= s < m.scopes.len() && s != -1 && sp_find(m.scopes[s].vars, n, 0) is None implies (
    #[trigger] sp_find(m3.scopes[s].vars, n, 0)) is None by {
        assert(m1.scopes[s] == m.scopes[s]);
        assert(sp_find(m2.scopes[s].vars, n, 0) is None);
    }
    assert forall|s: int| 0 <= s < m.scopes.len() implies (#[trigger] m3.scopes[s]).parent
        == m.scopes[s].parent by {
        assert(m1.scopes[s] == m.scopes[s]);
        assert(m2.scopes[s].parent == m1.scopes[s].parent);
    }
}

proof fn lemma_nb_stmts(m: StateModel, ss: Seq<StmtRef>, i: int, fuel: nat)
    ensures
        no_new_bindings_except(m, sp_stmts(m, ss, i, fuel).0, m.cur),
    decreases fuel, 1int,
{
    if fuel != 0 && 0 <= i < ss.len() {
        lemma_nb_stmt(m, xs(&ss[i]), fuel);
        let (m1, r1) = sp_stmt(m, xs(&ss[i]), fuel);
        if r1 matches Ok(OutModel::Norm(_)) {
            lemma_nb_stmts(m1, ss, i + 1, (fuel - 1) as nat);
            lemma_nb_trans(m, m1, sp_stmts(m1, ss, i + 1, (fuel - 1) as nat).0, m.cur);
        }
    }
}

proof fn lemma_nb_if(m: StateModel, s: IfStmt, fuel: nat)
    ensures
        no_new_bindings_except(m, sp_if(m, s, fuel).0, m.cur),
    decreases fuel, 2int,
{
    lemma_nb_expr(m, xe(&s.expr), fuel);
    let (m1, r1) = sp_expr(m, xe(&s.expr), fuel);
    match r1 {
        Ok(v) => {
            if truthy(v) {
                lemma_nb_stmt(m1, xs(&s.stmt), fuel);
                lemma_nb_trans(m, m1, sp_stmt(m1, xs(&s.stmt), fuel).0, m.cur);
            } else {
                match s.elstmt {
                    Some(el) => {
                        lemma_nb_stmt(m1, xs(&el), fuel);
                        lemma_nb_trans(m, m1, sp_stmt(m1, xs(&el), fuel).0, m.cur);
                    },
                    None => {},
                }
            }
        },
        Err(_) => {},
    }
}

proof fn lemma_nb_while(m: StateModel, w: WhileStmt, fuel: nat)
    ensures
        no_new_bindings_except(m, sp_while(m, w, fuel).0, m.cur),
    decreases fuel, 2int,
{
    if fuel != 0 {
        lemma_nb_expr(m, xe(&w.expr), fuel);
        let (m1, r1) = sp_expr(m, xe(&w.expr), fuel);
        match r1 {
            Ok(v) => {
                if truthy(v) {
                    lemma_nb_stmt(m1, xs(&w.stmt), fuel);
                    lemma_nb_trans(m, m1, sp_stmt(m1, xs(&w.stmt), fuel).0, m.cur);
                    let (m2, r2) = sp_stmt(m1, xs(&w.stmt), fuel);
                    if r2 matches Ok(OutModel::Norm(_)) {
                        lemma_nb_while(m2, w, (fuel - 1) as nat);
                        lemma_nb_trans(m, m2, sp_while(m2, w, (fuel - 1) as nat).0, m.cur);
                    }
                }
            },
            Err(_) => {},
        }
    }
}

/// Evaluating an expression never creates a binding in any scope that
/// existed before it started: calls bind parameters and declarations only
/// in scopes the evaluation itself created.
pub proof fn lemma_expr_creates_no_bindings(m: StateModel, e: &Expr, fuel: nat)
    ensures
        no_new_bindings_except(m, sp_expr(m, *e, fuel).0, -1),
{
    lemma_nb_expr(m, ex_val(e), fuel);
}

/// A name unbound through the scope chain stays unbound through any
/// expression evaluation.
pub proof fn lemma_unbound_stays_unbound(m: StateModel, e: &Expr, fuel: nat, idx: int, name: Seq<
    char,
>)
    requires
        state_wf(m),
        0 <= idx < m.scopes.len(),
        sp_lookup(m, idx, name) is None,
    ensures
        sp_lookup(sp_expr(m, *e, fuel).0, idx, name) is None,
{
    lemma_nb_expr(m, ex_val(e), fuel);
    lemma_walk_none(m, sp_expr(m, *e, fuel).0, idx, name);
}

/// Helper: under the no-new-bindings relation, an unbound walk stays
/// unbound, scope by scope.
proof fn lemma_walk_none(m: StateModel, m2: StateModel, idx: int, name: Seq<char>)
    requires
        state_wf(m),
        no_new_bindings_except(m, m2, -1),
        0 <= idx < m.scopes.len(),
        sp_lookup(m, idx, name) is None,
    ensures
        sp_lookup(m2, idx, name) is None,
    decreases idx,
{
    assert(scope_wf(m.scopes[idx], idx, m));
    assert(sp_find(m2.scopes[idx].vars, name, 0) is None);
    match m.scopes[idx].parent {
        Some(p) => {
            if 0 <= p < idx {
                lemma_walk_none(m, m2, p, name);
            }
        },
        None => {},
    }
}

/// Assigning to a name never declared in any enclosing scope fails with the
/// undefined-variable error and does not create the binding: when the
/// right-hand side evaluates to a value, the assignment reports at the
/// variable token's line, and the name is still unbound through the chain
/// afterward.
pub proof fn lemma_assign_expr_never_declares(m: StateModel, a: &AssignExpr, fuel: nat)
    requires
        state_wf(m),
        sp_lookup(m, m.cur, a.variable.text@) is None,
    ensures
        ({
            let (m1, r1) = sp_expr(m, *a.expr, fuel);
            let (m2, r) = sp_assign_expr(m, *a, fuel);
            r1 matches Ok(_) ==> {
                &&& r == Err::<Val, Halt>(
                    Halt::Fault(
                        RunError { kind: ErrKind::UndefinedVariable, line: a.variable.line },
                    ),
                )
                &&& sp_lookup(m2, m2.cur, a.variable.text@) is None
            }
        }),
{
    let name = a.variable.text@;
    lemma_nb_expr(m, xe(&a.expr), fuel);
    lemma_walk_none(m, sp_expr(m, xe(&a.expr), fuel).0, m.cur, name);
    let (m1, r1) = sp_expr(m, xe(&a.expr), fuel);
    match r1 {
        Ok(v) => {
            lemma_assign_unbound(m1, m1.cur, name, v);
            let mr = sp_report(m1, a.variable.line, undefined_var_msg(name));
            lemma_lookup_scopes_only(m1, mr, m1.cur, name);
        },
        Err(_) => {},
    }
}

} // verus!
