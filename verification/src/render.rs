//! Canonical textual rendering of the program tree: the fully
//! parenthesized, block-bracketed form used for debugging and golden
//! output.

use vstd::prelude::*;
use vstd::string::StringExecFns;

use crate::ast::Ast;
use crate::ast::Expr;
use crate::ast::ExprRef;
use crate::ast::Stmt;
use crate::ast::StmtRef;
use crate::token::Token;

verus! {

broadcast use vstd::seq::axiom_seq_index_decreases, vstd::std_specs::vec::axiom_vec_decreases_to_view;

/// The canonical text of an expression.
pub open spec fn render_expr(e: Expr) -> Seq<char>
    decreases e, 0int, 0int,
{
    match e {
        Expr::Binary(b) => "("@ + b.token.text@ + " "@ + render_expr(*b.lexpr) + " "@
            + render_expr(*b.rexpr) + ")"@,
        Expr::Unary(u) => "("@ + u.token.text@ + " "@ + render_expr(*u.expr) + ")"@,
        Expr::Literal(l) => l.token.text@,
        Expr::Group(g) => "(group "@ + render_expr(*g.expr) + ")"@,
        Expr::Assign(a) => "("@ + a.variable.text@ + "="@ + render_expr(*a.expr) + ")"@,
        Expr::Call(c) => "("@ + render_expr(*c.callee) + render_args(c.args@, 0) + ")"@,
        Expr::Lambda(d) => "([fun] "@ + render_params(d.params@, 0) + ")"@ + render_stmt(*d.block),
    }
}

/// The canonical text of a call's arguments: each one preceded by a space
/// and followed by a comma.
pub open spec fn render_args(args: Seq<ExprRef>, i: int) -> Seq<char>
    decreases args, args.len() - i, 0int,
{
    if !(0 <= i < args.len()) {
        Seq::empty()
    } else {
        " "@ + render_expr(*args[i]) + ","@ + render_args(args, i + 1)
    }
}

/// The canonical text of a parameter list: each name followed by a space.
pub open spec fn render_params(ps: Seq<Token>, i: int) -> Seq<char>
    decreases ps.len() - i,
{
    if !(0 <= i < ps.len()) {
        Seq::empty()
    } else {
        ps[i].text@ + " "@ + render_params(ps, i + 1)
    }
}

/// The canonical text of a statement.
pub open spec fn render_stmt(s: Stmt) -> Seq<char>
    decreases s, 0int, 0int,
{
    match s {
        Stmt::Expr(es) => render_expr(*es.expr) + ";"@,
        Stmt::Print(ps) => render_expr(*ps.expr) + ";"@,
        Stmt::Var(vd) => match vd.expr {
            Some(e) => "(var "@ + vd.variable.text@ + "="@ + render_expr(*e) + ");"@,
            None => "(var "@ + vd.variable.text@ + ");"@,
        },
        Stmt::Block(b) => "{"@ + render_stmts(b.decs@, 0) + "}"@,
        Stmt::Program(p) => render_stmts(p.decs@, 0),
        Stmt::If(i) => match i.elstmt {
            Some(el) => "(if "@ + render_expr(*i.expr) + " => "@ + render_stmt(*i.stmt) + " | "@
                + render_stmt(*el) + ")\n"@,
            None => "(if "@ + render_expr(*i.expr) + " => "@ + render_stmt(*i.stmt) + ")\n"@,
        },
        Stmt::While(w) => "(while "@ + render_expr(*w.expr) + " => "@ + render_stmt(*w.stmt)
            + ")\n"@,
        Stmt::Break(_) => "break"@,
        Stmt::Return(r) => match r.expr {
            Some(e) => "(return "@ + render_expr(*e) + ")"@,
            None => "return"@,
        },
        Stmt::Fun(fd) => "("@ + fd.name.text@ + " "@ + render_params(fd.params@, 0) + ")"@
            + render_stmt(*fd.block),
    }
}

/// The canonical text of a statement sequence: each statement followed by a
/// newline.
pub open spec fn render_stmts(ss: Seq<StmtRef>, i: int) -> Seq<char>
    decreases ss, ss.len() - i, 0int,
{
    if !(0 <= i < ss.len()) {
        Seq::empty()
    } else {
        render_stmt(*ss[i]) + "\n"@ + render_stmts(ss, i + 1)
    }
}

/// Renders an expression in its canonical text.
pub fn expr_to_text(e: &Expr) -> (s: String)
    ensures
        s@ == render_expr(*e),
    decreases *e, 0int, 0int,
{
    match e {
        Expr::Binary(b) => {
            let mut s = String::from_str("(");
            s.append(b.token.text.as_str());
            s.append(" ");
            let l = expr_to_text(&*b.lexpr);
            s.append(l.as_str());
            s.append(" ");
            let r = expr_to_text(&*b.rexpr);
            s.append(r.as_str());
            s.append(")");
            s
        },
        Expr::Unary(u) => {
            let mut s = String::from_str("(");
            s.append(u.token.text.as_str());
            s.append(" ");
            let x = expr_to_text(&*u.expr);
            s.append(x.as_str());
            s.append(")");
            s
        },
        Expr::Literal(l) => l.token.text.clone(),
        Expr::Group(g) => {
            let mut s = String::from_str("(group ");
            let x = expr_to_text(&*g.expr);
            s.append(x.as_str());
            s.append(")");
            s
        },
        Expr::Assign(a) => {
            let mut s = String::from_str("(");
            s.append(a.variable.text.as_str());
            s.append("=");
            let x = expr_to_text(&*a.expr);
            s.append(x.as_str());
            s.append(")");
            s
        },
        Expr::Call(c) => {
            let mut s = String::from_str("(");
            let x = expr_to_text(&*c.callee);
            s.append(x.as_str());
            let a = args_to_text(&c.args, 0);
            s.append(a.as_str());
            s.append(")");
            s
        },
        Expr::Lambda(d) => {
            let mut s = String::from_str("([fun] ");
            let p = params_to_text(&d.params, 0);
            s.append(p.as_str());
            s.append(")");
            let b = stmt_to_text(&*d.block);
            s.append(b.as_str());
            s
        },
    }
}

/// Renders a call's arguments from position `i` on.
fn args_to_text(args: &Vec<ExprRef>, i: usize) -> (s: String)
    requires
        i <= args@.len(),
    ensures
        s@ == render_args(args@, i as int),
    decreases args@, args@.len() - i, 0int,
{
    if i >= args.len() {
        String::new()
    } else {
        let mut s = String::from_str(" ");
        let x = expr_to_text(&*args[i]);
        s.append(x.as_str());
        s.append(",");
        let rest = args_to_text(args, i + 1);
        s.append(rest.as_str());
        s
    }
}

/// Renders a parameter list from position `i` on.
fn params_to_text(ps: &Vec<Token>, i: usize) -> (s: String)
    requires
        i <= ps@.len(),
    ensures
        s@ == render_params(ps@, i as int),
    decreases ps@.len() - i,
{
    if i >= ps.len() {
        String::new()
    } else {
        let mut s = ps[i].text.clone();
        s.append(" ");
        let rest = params_to_text(ps, i + 1);
        s.append(rest.as_str());
        s
    }
}

/// Renders a statement in its canonical text.
pub fn stmt_to_text(s: &Stmt) -> (r: String)
    ensures
        r@ == render_stmt(*s),
    decreases *s, 0int, 0int,
{
    match s {
        Stmt::Expr(es) => {
            let mut t = expr_to_text(&*es.expr);
            t.append(";");
            t
        },
        Stmt::Print(ps) => {
            let mut t = expr_to_text(&*ps.expr);
            t.append(";");
            t
        },
        Stmt::Var(vd) => {
            let mut t = String::from_str("(var ");
            t.append(vd.variable.text.as_str());
            match &vd.expr {
                Some(e) => {
                    t.append("=");
                    let x = expr_to_text(&**e);
                    t.append(x.as_str());
                    t.append(");");
                },
                None => {
                    t.append(");");
                },
            }
            t
        },
        Stmt::Block(b) => {
            let mut t = String::from_str("{");
            let x = stmts_to_text(&b.decs, 0);
            t.append(x.as_str());
            t.append("}");
            t
        },
        Stmt::Program(p) => stmts_to_text(&p.decs, 0),
        Stmt::If(i) => {
            let mut t = String::from_str("(if ");
            let c = expr_to_text(&*i.expr);
            t.append(c.as_str());
            t.append(" => ");
            let th = stmt_to_text(&*i.stmt);
            t.append(th.as_str());
            match &i.elstmt {
                Some(el) => {
                    t.append(" | ");
                    let e = stmt_to_text(&**el);
                    t.append(e.as_str());
                    t.append(")\n");
                },
                None => {
                    t.append(")\n");
                },
            }
            t
        },
        Stmt::While(w) => {
            let mut t = String::from_str("(while ");
            let c = expr_to_text(&*w.expr);
            t.append(c.as_str());
            t.append(" => ");
            let b = stmt_to_text(&*w.stmt);
            t.append(b.as_str());
            t.append(")\n");
            t
        },
        Stmt::Break(_) => String::from_str("break"),
        Stmt::Return(rs) => match &rs.expr {
            Some(e) => {
                let mut t = String::from_str("(return ");
                let x = expr_to_text(&**e);
                t.append(x.as_str());
                t.append(")");
                t
            },
            None => String::from_str("return"),
        },
        Stmt::Fun(fd) => {
            let mut t = String::from_str("(");
            t.append(fd.name.text.as_str());
            t.append(" ");
            let p = params_to_text(&fd.params, 0);
            t.append(p.as_str());
            t.append(")");
            let b = stmt_to_text(&*fd.block);
            t.append(b.as_str());
            t
        },
    }
}

/// Renders statements from position `i` on, one per line.
fn stmts_to_text(ss: &Vec<StmtRef>, i: usize) -> (s: String)
    requires
        i <= ss@.len(),
    ensures
        s@ == render_stmts(ss@, i as int),
    decreases ss@, ss@.len() - i, 0int,
{
    if i >= ss.len() {
        String::new()
    } else {
        let mut s = stmt_to_text(&*ss[i]);
        s.append("\n");
        let rest = stmts_to_text(ss, i + 1);
        s.append(rest.as_str());
        s
    }
}

/// Renders a whole program tree in its canonical text.
pub fn ast_to_text(ast: &Ast) -> (s: String)
    ensures
        s@ == render_stmt(*ast.root),
{
    stmt_to_text(&*ast.root)
}

} // verus!
