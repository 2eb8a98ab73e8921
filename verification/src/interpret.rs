//! The evaluation engine.
//!
//! The engine owns the scope table (a chain of binding scopes linked by
//! parent indices), the function table, the output it has produced, and the
//! diagnostic log.  Evaluation is defined twice: once as a recursive
//! specification interpreter over the engine's mathematical model, and once
//! as executable code proved to compute exactly what the specification
//! interpreter says, step for step.  Both are indexed by an evaluation
//! budget that bounds recursion and loops: a run that exceeds it stops with
//! `Halt::Exhausted` instead of a result, mirroring how a host stack would
//! overflow on unbounded recursion.

use vstd::prelude::*;
use vstd::pervasive::VecAdditionalExecFns;
use vstd::string::StringExecFns;

use crate::ast::Ast;
use crate::ast::AssignExpr;
use crate::ast::BinaryExpr;
use crate::ast::Block;
use crate::ast::BreakStmt;
use crate::ast::Expr;
use crate::ast::ExprRef;
use crate::ast::ExprStmt;
use crate::ast::FunCall;
use crate::ast::FunDecl;
use crate::ast::FunDef;
use crate::ast::GroupExpr;
use crate::ast::IfStmt;
use crate::ast::LiteralExpr;
use crate::ast::PrintStmt;
use crate::ast::Program;
use crate::ast::ReturnStmt;
use crate::ast::Stmt;
use crate::ast::StmtRef;
use crate::ast::UnaryExpr;
use crate::ast::VarDecl;
use crate::ast::WhileStmt;
use crate::ast::share_stmt;
use crate::diag::Diag;
use crate::diag::DiagModel;
use crate::diag::ErrKind;
use crate::diag::Halt;
use crate::diag::RunError;
use crate::function::CodeModel;
use crate::function::FunModel;
use crate::function::Function;
use crate::function::Implementation;
use crate::function::NativeFn;
use crate::function::all_natives;
use crate::numtext::is_num_text;
use crate::numtext::num_text_val;
use crate::numtext::parse_number;
use crate::token::Token;
use crate::token::TokenKind;
use crate::value::Val;
use crate::value::Value;
use crate::value::apply_binary_op;
use crate::value::apply_unary_op;
use crate::value::display_text;
use crate::value::display_value;
use crate::value::sp_binary_op;
use crate::value::sp_unary_op;
use crate::value::truthy;
use crate::value::value_dup;

verus! {

/// One scope: its bindings in insertion order, and the index of its parent
/// scope in the engine's scope table (`None` for the global scope).
pub struct Scope {
    pub vars: Vec<(String, Value)>,
    pub parent: Option<usize>,
}

/// The mathematical model of one scope.
#[verifier::ext_equal]
pub struct ScopeModel {
    pub vars: Seq<(Seq<char>, Val)>,
    pub parent: Option<int>,
}

impl View for Scope {
    type V = ScopeModel;

    open spec fn view(&self) -> ScopeModel {
        ScopeModel {
            vars: self.vars@.map_values(|p: (String, Value)| (p.0@, p.1@)),
            parent: match self.parent {
                Some(p) => Some(p as int),
                None => None,
            },
        }
    }
}

/// The outcome of a statement: normal completion with a value, a `break`
/// signal, or a `return` signal carrying the result value.
pub enum Outcome {
    Norm(Value),
    Break,
    Return(Value),
}

/// The mathematical model of a statement outcome.
pub enum OutModel {
    Norm(Val),
    Break,
    Return(Val),
}

impl View for Outcome {
    type V = OutModel;

    open spec fn view(&self) -> OutModel {
        match self {
            Outcome::Norm(v) => OutModel::Norm(v@),
            Outcome::Break => OutModel::Break,
            Outcome::Return(v) => OutModel::Return(v@),
        }
    }
}

/// The mathematical model of the whole engine state.
#[verifier::ext_equal]
pub struct StateModel {
    pub scopes: Seq<ScopeModel>,
    pub funs: Seq<FunModel>,
    pub cur: int,
    pub output: Seq<Seq<char>>,
    pub diags: Seq<DiagModel>,
    pub time: i64,
}

/// The evaluation engine: the scope table, the function table, the current
/// (innermost) scope, the output produced so far, the diagnostic log, and
/// the engine clock.  The clock is seeded from the host wall clock when the
/// engine is created and again at the start of every `run`, and advances by
/// one per reading: within a single run it is a deterministic counter, so
/// the whole run is a function of its starting state.
pub struct Interpretor {
    pub scopes: Vec<Scope>,
    pub funs: Vec<Function>,
    pub cur: usize,
    pub output: Vec<String>,
    pub diags: Vec<Diag>,
    pub time: i64,
}

impl View for Interpretor {
    type V = StateModel;

    open spec fn view(&self) -> StateModel {
        StateModel {
            scopes: self.scopes@.map_values(|s: Scope| s@),
            funs: self.funs@.map_values(|f: Function| f@),
            cur: self.cur as int,
            output: self.output@.map_values(|s: String| s@),
            diags: self.diags@.map_values(|d: Diag| d@),
            time: self.time,
        }
    }
}

/// A value is well formed when any function it names is in the table.
pub open spec fn val_wf(v: Val, m: StateModel) -> bool {
    v matches Val::Fun(i) ==> 0 <= i < m.funs.len()
}

/// A scope is well formed at position `idx`: its parent comes strictly
/// earlier in the table (the chain is acyclic) and its values are well
/// formed.
pub open spec fn scope_wf(s: ScopeModel, idx: int, m: StateModel) -> bool {
    &&& (s.parent matches Some(p) ==> 0 <= p < idx)
    &&& forall|j: int| 0 <= j < s.vars.len() ==> val_wf((#[trigger] s.vars[j]).1, m)
}

/// A function object is well formed: its captured scope is in the table.
pub open spec fn fun_wf(f: FunModel, m: StateModel) -> bool {
    f.closure matches Some(c) ==> 0 <= c < m.scopes.len()
}

/// The engine invariant: the current scope exists, every scope and every
/// function object is well formed.
pub open spec fn state_wf(m: StateModel) -> bool {
    &&& 0 <= m.cur < m.scopes.len()
    &&& forall|i: int| 0 <= i < m.scopes.len() ==> scope_wf(#[trigger] m.scopes[i], i, m)
    &&& forall|i: int| 0 <= i < m.funs.len() ==> fun_wf(#[trigger] m.funs[i], m)
}

/// Appends one diagnostic to the log, leaving the rest of the state alone.
pub open spec fn sp_report(m: StateModel, line: u64, msg: Seq<char>) -> StateModel {
    StateModel { diags: m.diags.push(DiagModel { line, message: msg }), ..m }
}

/// The first binding of `name` in `vars` at or after position `i`.
pub open spec fn sp_find(vars: Seq<(Seq<char>, Val)>, name: Seq<char>, i: int) -> Option<int>
    decreases vars.len() - i,
{
    if !(0 <= i < vars.len()) {
        None
    } else if vars[i].0 == name {
        Some(i)
    } else {
        sp_find(vars, name, i + 1)
    }
}

/// Defines `name` in the current scope: overwrites its binding there, or
/// inserts one.  Bindings in enclosing scopes are untouched.
pub open spec fn sp_define(m: StateModel, name: Seq<char>, v: Val) -> StateModel {
    if !(0 <= m.cur < m.scopes.len()) {
        m
    } else {
        let sc = m.scopes[m.cur];
        let nv = match sp_find(sc.vars, name, 0) {
            Some(j) => sc.vars.update(j, (name, v)),
            None => sc.vars.push((name, v)),
        };
        StateModel {
            scopes: m.scopes.update(m.cur, ScopeModel { vars: nv, parent: sc.parent }),
            ..m
        }
    }
}

/// Looks `name` up, walking outward from scope `idx` through parent links,
/// and returns the first binding found.
pub open spec fn sp_lookup(m: StateModel, idx: int, name: Seq<char>) -> Option<Val>
    decreases idx,
{
    if !(0 <= idx < m.scopes.len()) {
        None
    } else {
        let sc = m.scopes[idx];
        match sp_find(sc.vars, name, 0) {
            Some(j) => Some(sc.vars[j].1),
            None => match sc.parent {
                Some(p) => if 0 <= p < idx {
                    sp_lookup(m, p, name)
                } else {
                    None
                },
                None => None,
            },
        }
    }
}

/// Assigns to the nearest enclosing binding of `name`, walking outward from
/// scope `idx`.  Returns the new state and whether a binding was found; when
/// none is, the state is returned unchanged (assignment never declares).
pub open spec fn sp_assign(m: StateModel, idx: int, name: Seq<char>, v: Val) -> (StateModel, bool)
    decreases idx,
{
    if !(0 <= idx < m.scopes.len()) {
        (m, false)
    } else {
        let sc = m.scopes[idx];
        match sp_find(sc.vars, name, 0) {
            Some(j) => (
                StateModel {
                    scopes: m.scopes.update(
                        idx,
                        ScopeModel { vars: sc.vars.update(j, (name, v)), parent: sc.parent },
                    ),
                    ..m
                },
                true,
            ),
            None => match sc.parent {
                Some(p) => if 0 <= p < idx {
                    sp_assign(m, p, name, v)
                } else {
                    (m, false)
                },
                None => (m, false),
            },
        }
    }
}

/// Appends a fresh empty scope with the given parent and makes it current.
pub open spec fn sp_push_scope(m: StateModel, parent: Option<int>) -> StateModel {
    StateModel {
        scopes: m.scopes.push(ScopeModel { vars: Seq::empty(), parent }),
        cur: m.scopes.len() as int,
        ..m
    }
}

/// The model of the executable scope representation of `vars`.
pub open spec fn vars_view(vars: Seq<(String, Value)>) -> Seq<(Seq<char>, Val)> {
    vars.map_values(|p: (String, Value)| (p.0@, p.1@))
}

/// Model equality for an optional value.
pub open spec fn opt_val_eq(r: Option<Value>, s: Option<Val>) -> bool {
    match (r, s) {
        (Some(v), Some(w)) => v@ == w,
        (None, None) => true,
        _ => false,
    }
}

/// Finds the first binding of `name` in `vars` at or after position `i`.
fn scope_find(vars: &Vec<(String, Value)>, name: &String, i: usize) -> (r: Option<usize>)
    requires
        i <= vars@.len(),
    ensures
        match r {
            Some(j) => i <= j < vars@.len() && sp_find(vars_view(vars@), name@, i as int) == Some(
                j as int,
            ),
            None => sp_find(vars_view(vars@), name@, i as int) is None,
        },
    decreases vars@.len() - i,
{
    if i >= vars.len() {
        None
    } else if vars[i].0 == *name {
        Some(i)
    } else {
        scope_find(vars, name, i + 1)
    }
}

/// A copy of a binding list, equal to the original.
fn clone_vars(vars: &Vec<(String, Value)>) -> (r: Vec<(String, Value)>)
    ensures
        r@ == vars@,
{
    let mut r: Vec<(String, Value)> = Vec::new();
    let mut i: usize = 0;
    while i < vars.len()
        invariant
            i <= vars@.len(),
            r@ == vars@.subrange(0, i as int),
        decreases vars@.len() - i,
    {
        let name = vars[i].0.clone();
        let v = value_dup(&vars[i].1);
        r.push((name, v));
        proof {
            assert(r@ =~= vars@.subrange(0, i + 1));
        }
        i = i + 1;
    }
    proof {
        assert(vars@.subrange(0, vars@.len() as int) =~= vars@);
    }
    r
}

impl Interpretor {
    /// Defines `name` as `v` in the current scope, inserting or
    /// overwriting the binding there and leaving enclosing scopes alone.
    pub fn define(&mut self, name: &String, v: Value)
        requires
            state_wf(old(self)@),
            val_wf(v@, old(self)@),
        ensures
            final(self)@ == sp_define(old(self)@, name@, v@),
            state_wf(final(self)@),
            final(self)@.funs == old(self)@.funs,
            final(self)@.scopes.len() == old(self)@.scopes.len(),
            final(self)@.cur == old(self)@.cur,
    {
        let cur = self.cur;
        let found = scope_find(&self.scopes[cur].vars, name, 0);
        let mut nv = clone_vars(&self.scopes[cur].vars);
        match found {
            Some(j) => {
                nv.set(j, (name.clone(), v));
            },
            None => {
                nv.push((name.clone(), v));
            },
        }
        let parent = self.scopes[cur].parent;
        let ghost old_m = self@;
        self.scopes.set(cur, Scope { vars: nv, parent });
        proof {
            let target = sp_define(old_m, name@, v@);
            assert(self@.scopes[old_m.cur].vars =~= target.scopes[old_m.cur].vars);
            assert(self@.scopes =~= target.scopes);
            assert(self@ =~= target);
            assert forall|i: int| 0 <= i < self@.scopes.len() implies scope_wf(
                #[trigger] self@.scopes[i],
                i,
                self@,
            ) by {
                assert(scope_wf(old_m.scopes[i], i, old_m));
                if i == old_m.cur {
                    let ovars = old_m.scopes[i].vars;
                    assert forall|j: int| 0 <= j < self@.scopes[i].vars.len() implies val_wf(
                        (#[trigger] self@.scopes[i].vars[j]).1,
                        self@,
                    ) by {
                        if j < ovars.len() {
                            assert(val_wf(ovars[j].1, old_m));
                        }
                    }
                }
            }
        }
    }

    /// Looks `name` up from scope `idx` outward and returns a copy of the
    /// first binding found.
    fn lookup_at(&self, idx: usize, name: &String) -> (r: Option<Value>)
        requires
            state_wf(self@),
            idx < self@.scopes.len(),
        ensures
            opt_val_eq(r, sp_lookup(self@, idx as int, name@)),
            r matches Some(v) ==> val_wf(v@, self@),
        decreases idx,
    {
        proof {
            assert(scope_wf(self@.scopes[idx as int], idx as int, self@));
        }
        let found = scope_find(&self.scopes[idx].vars, name, 0);
        match found {
            Some(j) => Some(value_dup(&self.scopes[idx].vars[j].1)),
            None => match self.scopes[idx].parent {
                Some(p) => self.lookup_at(p, name),
                None => None,
            },
        }
    }

    /// Looks `name` up from the current scope outward.
    pub fn lookup(&self, name: &String) -> (r: Option<Value>)
        requires
            state_wf(self@),
        ensures
            opt_val_eq(r, sp_lookup(self@, self@.cur, name@)),
            r matches Some(v) ==> val_wf(v@, self@),
    {
        self.lookup_at(self.cur, name)
    }

    /// Assigns `v` to the nearest enclosing binding of `name`, walking
    /// outward from scope `idx`.  Returns whether a binding was found; when
    /// none is, nothing changes.
    fn assign_at(&mut self, idx: usize, name: &String, v: Value) -> (found: bool)
        requires
            state_wf(old(self)@),
            idx < old(self)@.scopes.len(),
            val_wf(v@, old(self)@),
        ensures
            (final(self)@, found) == sp_assign(old(self)@, idx as int, name@, v@),
            state_wf(final(self)@),
            final(self)@.funs == old(self)@.funs,
            final(self)@.scopes.len() == old(self)@.scopes.len(),
            final(self)@.cur == old(self)@.cur,
        decreases idx,
    {
        proof {
            assert(scope_wf(self@.scopes[idx as int], idx as int, self@));
        }
        let found = scope_find(&self.scopes[idx].vars, name, 0);
        match found {
            Some(j) => {
                let mut nv = clone_vars(&self.scopes[idx].vars);
                nv.set(j, (name.clone(), v));
                let parent = self.scopes[idx].parent;
                let ghost old_m = self@;
                self.scopes.set(idx, Scope { vars: nv, parent });
                proof {
                    let target = sp_assign(old_m, idx as int, name@, v@).0;
                    assert(self@.scopes[idx as int].vars =~= target.scopes[idx as int].vars);
                    assert(self@.scopes =~= target.scopes);
                    assert(self@ =~= target);
                    assert forall|i: int| 0 <= i < self@.scopes.len() implies scope_wf(
                        #[trigger] self@.scopes[i],
                        i,
                        self@,
                    ) by {
                        assert(scope_wf(old_m.scopes[i], i, old_m));
                        if i == idx as int {
                            let ovars = old_m.scopes[i].vars;
                            assert forall|k: int| 0 <= k < self@.scopes[i].vars.len() implies
                                val_wf((#[trigger] self@.scopes[i].vars[k]).1, self@) by {
                                if k < ovars.len() && k != sp_find(ovars, name@, 0).unwrap() {
                                    assert(val_wf(ovars[k].1, old_m));
                                }
                            }
                        }
                    }
                }
                true
            },
            None => {
                match self.scopes[idx].parent {
                    Some(p) => self.assign_at(p, name, v),
                    None => false,
                }
            },
        }
    }

    /// Assigns `v` to the nearest enclosing binding of `name`, walking
    /// outward from the current scope.
    pub fn assign(&mut self, name: &String, v: Value) -> (found: bool)
        requires
            state_wf(old(self)@),
            val_wf(v@, old(self)@),
        ensures
            (final(self)@, found) == sp_assign(old(self)@, old(self)@.cur, name@, v@),
            state_wf(final(self)@),
            final(self)@.funs == old(self)@.funs,
            final(self)@.scopes.len() == old(self)@.scopes.len(),
            final(self)@.cur == old(self)@.cur,
    {
        let cur = self.cur;
        self.assign_at(cur, name, v)
    }

    /// Appends a fresh empty scope with the given parent and makes it
    /// current.
    pub fn push_scope(&mut self, parent: Option<usize>)
        requires
            state_wf(old(self)@),
            parent matches Some(p) ==> p < old(self)@.scopes.len(),
        ensures
            final(self)@ == sp_push_scope(
                old(self)@,
                match parent {
                    Some(p) => Some(p as int),
                    None => None,
                },
            ),
            state_wf(final(self)@),
            final(self)@.funs == old(self)@.funs,
            final(self)@.scopes.len() == old(self)@.scopes.len() + 1,
    {
        let ghost old_m = self@;
        self.cur = self.scopes.len();
        self.scopes.push(Scope { vars: Vec::new(), parent });
        proof {
            let target = sp_push_scope(
                old_m,
                match parent {
                    Some(p) => Some(p as int),
                    None => None,
                },
            );
            assert(self@.scopes =~~= target.scopes);
            assert(self@ =~= target);
            assert forall|i: int| 0 <= i < self@.scopes.len() implies scope_wf(
                #[trigger] self@.scopes[i],
                i,
                self@,
            ) by {
                if i < old_m.scopes.len() {
                    assert(scope_wf(old_m.scopes[i], i, old_m));
                }
            }
        }
    }

    /// Appends a function object to the function table and returns its
    /// index.
    pub fn push_fun(&mut self, f: Function) -> (i: usize)
        requires
            state_wf(old(self)@),
            fun_wf(f@, old(self)@),
        ensures
            final(self)@ == (StateModel { funs: old(self)@.funs.push(f@), ..old(self)@ }),
            i as int == old(self)@.funs.len(),
            state_wf(final(self)@),
    {
        let i = self.funs.len();
        let ghost old_m = self@;
        self.funs.push(f);
        proof {
            let target = StateModel { funs: old_m.funs.push(f@), ..old_m };
            assert(self@.funs =~= target.funs);
            assert(self@ =~= target);
            assert forall|k: int| 0 <= k < self@.scopes.len() implies scope_wf(
                #[trigger] self@.scopes[k],
                k,
                self@,
            ) by {
                assert(scope_wf(old_m.scopes[k], k, old_m));
                assert forall|j: int| 0 <= j < self@.scopes[k].vars.len() implies val_wf(
                    (#[trigger] self@.scopes[k].vars[j]).1,
                    self@,
                ) by {
                    assert(val_wf(old_m.scopes[k].vars[j].1, old_m));
                }
            }
            assert forall|k: int| 0 <= k < self@.funs.len() implies fun_wf(
                #[trigger] self@.funs[k],
                self@,
            ) by {
                if k < old_m.funs.len() {
                    assert(fun_wf(old_m.funs[k], old_m));
                }
            }
        }
        i
    }

    /// Appends one line to the engine's output.
    pub fn write_out(&mut self, s: String)
        requires
            state_wf(old(self)@),
        ensures
            final(self)@ == (StateModel { output: old(self)@.output.push(s@), ..old(self)@ }),
            state_wf(final(self)@),
    {
        let ghost old_m = self@;
        self.output.push(s);
        proof {
            let target = StateModel { output: old_m.output.push(s@), ..old_m };
            assert(self@.output =~= target.output);
            assert(self@ =~= target);
        }
    }

    /// Records one diagnostic, at the line of the offending token, and
    /// builds the failure signal that propagates from the error site.
    pub fn report(&mut self, kind: ErrKind, line: u64, message: String) -> (h: Halt)
        requires
            state_wf(old(self)@),
        ensures
            final(self)@ == sp_report(old(self)@, line, message@),
            h == Halt::Fault(RunError { kind, line }),
            state_wf(final(self)@),
    {
        let ghost old_m = self@;
        self.diags.push(Diag { line, message });
        proof {
            let target = sp_report(old_m, line, message@);
            assert(self@.diags =~= target.diags);
            assert(self@ =~= target);
        }
        Halt::Fault(RunError { kind, line })
    }

    /// Reads the engine clock and advances it.  The clock approximates the
    /// host wall clock in milliseconds: it is re-seeded from the host at
    /// engine creation and at each `run`, and moves forward by one per
    /// reading in between, keeping evaluation deterministic.
    pub fn tick(&mut self) -> (t: i64)
        requires
            state_wf(old(self)@),
        ensures
            final(self)@ == (StateModel { time: old(self)@.time.wrapping_add(1), ..old(self)@ }),
            t == old(self)@.time,
            state_wf(final(self)@),
    {
        let t = self.time;
        self.time = self.time.wrapping_add(1);
        t
    }
}


/// The model of a list of runtime values.
pub open spec fn vals_view(vs: Seq<Value>) -> Seq<Val> {
    vs.map_values(|v: Value| v@)
}

/// Every value of the list is well formed.
pub open spec fn vals_wf(vs: Seq<Val>, m: StateModel) -> bool {
    forall|i: int| 0 <= i < vs.len() ==> val_wf(#[trigger] vs[i], m)
}

/// Model equality for an expression result.
pub open spec fn res_val_eq(r: Result<Value, Halt>, s: Result<Val, Halt>) -> bool {
    match (r, s) {
        (Ok(v), Ok(w)) => v@ == w,
        (Err(a), Err(b)) => a == b,
        _ => false,
    }
}

/// Model equality for a statement outcome result.
pub open spec fn res_out_eq(r: Result<Outcome, Halt>, s: Result<OutModel, Halt>) -> bool {
    match (r, s) {
        (Ok(o), Ok(w)) => o@ == w,
        (Err(a), Err(b)) => a == b,
        _ => false,
    }
}

/// Model equality for an argument-list result.
pub open spec fn res_vals_eq(r: Result<Vec<Value>, Halt>, s: Result<Seq<Val>, Halt>) -> bool {
    match (r, s) {
        (Ok(v), Ok(w)) => vals_view(v@) == w,
        (Err(a), Err(b)) => a == b,
        _ => false,
    }
}

/// The message reported for an undefined variable.
pub open spec fn undefined_var_msg(name: Seq<char>) -> Seq<char> {
    "undefined variable ("@ + name + ")"@
}

/// The message reported for a malformed numeric literal.
pub open spec fn invalid_number_msg(text: Seq<char>) -> Seq<char> {
    "invalid number ("@ + text + ")"@
}

/// The message reported when a binary operator rejects its operands.
pub open spec fn binop_err_msg(op: TokenKind, k: ErrKind) -> Seq<char> {
    if k == ErrKind::DivisionByZero {
        "division by zero"@
    } else if op == TokenKind::Plus {
        "operator '+' can only be used on number or string types"@
    } else {
        "operands must be numbers"@
    }
}

/// One output line of the logging native: the arguments' display forms
/// joined by single spaces, with no trailing separator.
pub open spec fn log_text(vs: Seq<Val>, i: int) -> Seq<char>
    decreases vs.len() - i,
{
    if !(0 <= i < vs.len()) {
        Seq::empty()
    } else if i == vs.len() - 1 {
        display_text(vs[i])
    } else {
        display_text(vs[i]) + " "@ + log_text(vs, i + 1)
    }
}

/// What a literal token evaluates to: numbers parse their text (a malformed
/// number is reported), strings strip their delimiting quotes, the keyword
/// literals map directly, and an identifier is resolved through the scope
/// chain (an unbound one is reported).
pub open spec fn sp_literal(m: StateModel, t: Token) -> (StateModel, Result<Val, Halt>) {
    match t.kind {
        TokenKind::Nil => (m, Ok(Val::Nil)),
        TokenKind::True => (m, Ok(Val::Bool(true))),
        TokenKind::False => (m, Ok(Val::Bool(false))),
        TokenKind::Number => if is_num_text(t.text@) {
            (m, Ok(Val::Num(num_text_val(t.text@))))
        } else {
            (
                sp_report(m, t.line, invalid_number_msg(t.text@)),
                Err(Halt::Fault(RunError { kind: ErrKind::NumberFormat, line: t.line })),
            )
        },
        TokenKind::String => if t.text@.len() >= 2 {
            (m, Ok(Val::Str(t.text@.subrange(1, t.text@.len() - 1))))
        } else {
            (
                sp_report(m, t.line, "invalid string literal"@),
                Err(Halt::Fault(RunError { kind: ErrKind::RuntimeType, line: t.line })),
            )
        },
        TokenKind::Identifier => match sp_lookup(m, m.cur, t.text@) {
            Some(v) => (m, Ok(v)),
            None => (
                sp_report(m, t.line, undefined_var_msg(t.text@)),
                Err(Halt::Fault(RunError { kind: ErrKind::UndefinedVariable, line: t.line })),
            ),
        },
        _ => (
            sp_report(m, t.line, "invalid literal"@),
            Err(Halt::Fault(RunError { kind: ErrKind::RuntimeType, line: t.line })),
        ),
    }
}

/// Creates a function value from a parameter list and a body, capturing the
/// current scope, and appends it to the function table.
pub open spec fn sp_make_fun(m: StateModel, params: Seq<Token>, body: StmtRef) -> (StateModel, int) {
    let fm = FunModel {
        params: params.map_values(|t: Token| t.text@),
        code: CodeModel::User(body),
        closure: Some(m.cur),
    };
    (StateModel { funs: m.funs.push(fm), ..m }, m.funs.len() as int)
}

/// Binds parameters positionally in the current (freshly created) scope.
pub open spec fn sp_bind(m: StateModel, params: Seq<Seq<char>>, argv: Seq<Val>, i: int) -> StateModel
    decreases params.len() - i,
{
    if 0 <= i < params.len() && i < argv.len() {
        sp_bind(sp_define(m, params[i], argv[i]), params, argv, i + 1)
    } else {
        m
    }
}

/// Evaluates an expression: the specification the executable evaluator is
/// proved against.
pub open spec fn sp_expr(m: StateModel, e: Expr, fuel: nat) -> (StateModel, Result<Val, Halt>)
    decreases fuel, 0int,
{
    if fuel == 0 {
        (m, Err(Halt::Exhausted))
    } else {
        let f = (fuel - 1) as nat;
        match e {
            Expr::Literal(l) => sp_literal(m, l.token),
            Expr::Group(g) => sp_group(m, g, f),
            Expr::Unary(u) => sp_unary(m, u, f),
            Expr::Binary(b) => sp_binary(m, b, f),
            Expr::Assign(a) => sp_assign_expr(m, a, f),
            Expr::Call(c) => sp_call_expr(m, c, f),
            Expr::Lambda(d) => {
                let (m1, i) = sp_make_fun(m, d.params@, d.block);
                (m1, Ok(Val::Fun(i)))
            },
        }
    }
}

/// A grouping passes its inner value through unchanged.
pub open spec fn sp_group(m: StateModel, g: GroupExpr, fuel: nat) -> (StateModel, Result<Val, Halt>)
    decreases fuel, 2int,
{
    sp_expr(m, *g.expr, fuel)
}

/// Evaluates the operand, then applies the unary operator; a type error is
/// reported at the operator's line.
pub open spec fn sp_unary(m: StateModel, u: UnaryExpr, fuel: nat) -> (StateModel, Result<Val, Halt>)
    decreases fuel, 2int,
{
    let (m1, r1) = sp_expr(m, *u.expr, fuel);
    match r1 {
        Err(h) => (m1, Err(h)),
        Ok(v) => match sp_unary_op(u.token.kind, v) {
            Ok(w) => (m1, Ok(w)),
            Err(k) => (
                sp_report(m1, u.token.line, "expected number after '-'"@),
                Err(Halt::Fault(RunError { kind: k, line: u.token.line })),
            ),
        },
    }
}

/// Evaluates both operands left to right, then applies the binary operator;
/// an operand error is reported at the operator's line.
pub open spec fn sp_binary(m: StateModel, b: BinaryExpr, fuel: nat) -> (StateModel, Result<
    Val,
    Halt,
>)
    decreases fuel, 2int,
{
    let (m1, r1) = sp_expr(m, *b.lexpr, fuel);
    match r1 {
        Err(h) => (m1, Err(h)),
        Ok(a) => {
            let (m2, r2) = sp_expr(m1, *b.rexpr, fuel);
            match r2 {
                Err(h) => (m2, Err(h)),
                Ok(c) => match sp_binary_op(b.token.kind, a, c) {
                    Ok(w) => (m2, Ok(w)),
                    Err(k) => (
                        sp_report(m2, b.token.line, binop_err_msg(b.token.kind, k)),
                        Err(Halt::Fault(RunError { kind: k, line: b.token.line })),
                    ),
                },
            }
        },
    }
}

/// Evaluates the right-hand side, then mutates the nearest enclosing
/// binding; assigning an unbound name is reported and never declares.  The
/// assignment yields the assigned value.
pub open spec fn sp_assign_expr(m: StateModel, a: AssignExpr, fuel: nat) -> (StateModel, Result<
    Val,
    Halt,
>)
    decreases fuel, 2int,
{
    let (m1, r1) = sp_expr(m, *a.expr, fuel);
    match r1 {
        Err(h) => (m1, Err(h)),
        Ok(v) => {
            let (m2, found) = sp_assign(m1, m1.cur, a.variable.text@, v);
            if found {
                (m2, Ok(v))
            } else {
                (
                    sp_report(m2, a.variable.line, undefined_var_msg(a.variable.text@)),
                    Err(
                        Halt::Fault(
                            RunError { kind: ErrKind::UndefinedVariable, line: a.variable.line },
                        ),
                    ),
                )
            }
        },
    }
}

/// Evaluates the callee, then each argument left to right, then dispatches
/// the call; a non-function callee is reported at the call's line.
pub open spec fn sp_call_expr(m: StateModel, c: FunCall, fuel: nat) -> (StateModel, Result<
    Val,
    Halt,
>)
    decreases fuel, 2int,
{
    let (m1, r1) = sp_expr(m, *c.callee, fuel);
    match r1 {
        Err(h) => (m1, Err(h)),
        Ok(v) => {
            let (m2, r2) = sp_args(m1, c.args@, 0, fuel);
            match r2 {
                Err(h) => (m2, Err(h)),
                Ok(argv) => match v {
                    Val::Fun(i) => sp_invoke(m2, i, argv, c.line, fuel),
                    _ => (
                        sp_report(m2, c.line, "can only call functions"@),
                        Err(Halt::Fault(RunError { kind: ErrKind::UndefinedFunction, line: c.line })),
                    ),
                },
            }
        },
    }
}

/// Evaluates the argument expressions from position `i` on, left to right.
pub open spec fn sp_args(m: StateModel, args: Seq<ExprRef>, i: int, fuel: nat) -> (StateModel,
Result<Seq<Val>, Halt>)
    decreases fuel, 1int,
{
    if fuel == 0 {
        (m, Err(Halt::Exhausted))
    } else if !(0 <= i < args.len()) {
        (m, Ok(Seq::empty()))
    } else {
        let (m1, r1) = sp_expr(m, *args[i], fuel);
        match r1 {
            Err(h) => (m1, Err(h)),
            Ok(v) => {
                let (m2, r2) = sp_args(m1, args, i + 1, (fuel - 1) as nat);
                match r2 {
                    Err(h) => (m2, Err(h)),
                    Ok(rest) => (m2, Ok(seq![v] + rest)),
                }
            },
        }
    }
}

/// Calls function `fi` on already-evaluated arguments.  A native consumes
/// them directly; a user function checks arity, binds parameters in a fresh
/// scope chained to its captured environment (lexical, not dynamic,
/// scoping), runs its body, and yields the returned value, or nil when the
/// body completes without a return.
pub open spec fn sp_invoke(m: StateModel, fi: int, argv: Seq<Val>, line: u64, fuel: nat) -> (
StateModel, Result<Val, Halt>)
    decreases fuel, 1int,
{
    if !(0 <= fi < m.funs.len()) {
        (
            sp_report(m, line, "can only call functions"@),
            Err(Halt::Fault(RunError { kind: ErrKind::UndefinedFunction, line })),
        )
    } else {
        let fm = m.funs[fi];
        match fm.code {
            CodeModel::Native(NativeFn::Log) => (
                StateModel { output: m.output.push(log_text(argv, 0)), ..m },
                Ok(Val::Nil),
            ),
            CodeModel::Native(NativeFn::Clock) => (
                StateModel { time: m.time.wrapping_add(1), ..m },
                Ok(Val::Num(m.time)),
            ),
            CodeModel::User(body) => if fm.params.len() != argv.len() {
                (
                    sp_report(m, line, "wrong number of arguments"@),
                    Err(Halt::Fault(RunError { kind: ErrKind::ArityMismatch, line })),
                )
            } else {
                let parent = match fm.closure {
                    Some(c) => c,
                    None => 0int,
                };
                let m1 = sp_push_scope(m, Some(parent));
                let m2 = sp_bind(m1, fm.params, argv, 0);
                let (m3, r) = sp_stmt(m2, *body, fuel);
                let m4 = StateModel { cur: m.cur, ..m3 };
                match r {
                    Err(h) => (m4, Err(h)),
                    Ok(OutModel::Return(v)) => (m4, Ok(v)),
                    Ok(_) => (m4, Ok(Val::Nil)),
                }
            },
        }
    }
}

/// Executes a statement: the specification the executable evaluator is
/// proved against.
pub open spec fn sp_stmt(m: StateModel, s: Stmt, fuel: nat) -> (StateModel, Result<OutModel, Halt>)
    decreases fuel, 0int,
{
    if fuel == 0 {
        (m, Err(Halt::Exhausted))
    } else {
        let f = (fuel - 1) as nat;
        match s {
            Stmt::Expr(es) => sp_expr_stmt(m, es, f),
            Stmt::Print(ps) => sp_print_stmt(m, ps, f),
            Stmt::Var(vd) => sp_var_decl(m, vd, f),
            Stmt::Fun(fd) => {
                let (m1, i) = sp_make_fun(m, fd.params@, fd.block);
                let m2 = sp_define(m1, fd.name.text@, Val::Fun(i));
                (m2, Ok(OutModel::Norm(Val::Nil)))
            },
            Stmt::Block(b) => sp_block(m, b, f),
            Stmt::Program(p) => sp_stmts(m, p.decs@, 0, f),
            Stmt::If(i) => sp_if(m, i, f),
            Stmt::While(w) => sp_while(m, w, f),
            Stmt::Break(_) => (m, Ok(OutModel::Break)),
            Stmt::Return(r) => sp_return(m, r, f),
        }
    }
}

/// An expression statement yields its expression's value as a normal
/// outcome; the value has no further effect.
pub open spec fn sp_expr_stmt(m: StateModel, s: ExprStmt, fuel: nat) -> (StateModel, Result<
    OutModel,
    Halt,
>)
    decreases fuel, 2int,
{
    let (m1, r) = sp_expr(m, *s.expr, fuel);
    match r {
        Err(h) => (m1, Err(h)),
        Ok(v) => (m1, Ok(OutModel::Norm(v))),
    }
}

/// `print` writes the value's display form as one output line.
pub open spec fn sp_print_stmt(m: StateModel, s: PrintStmt, fuel: nat) -> (StateModel, Result<
    OutModel,
    Halt,
>)
    decreases fuel, 2int,
{
    let (m1, r) = sp_expr(m, *s.expr, fuel);
    match r {
        Err(h) => (m1, Err(h)),
        Ok(v) => (
            StateModel { output: m1.output.push(display_text(v)), ..m1 },
            Ok(OutModel::Norm(Val::Nil)),
        ),
    }
}

/// A declaration binds a name in the current scope, to its initializer's
/// value or to nil.
pub open spec fn sp_var_decl(m: StateModel, s: VarDecl, fuel: nat) -> (StateModel, Result<
    OutModel,
    Halt,
>)
    decreases fuel, 2int,
{
    let (m1, r) = match s.expr {
        Some(e) => sp_expr(m, *e, fuel),
        None => (m, Ok(Val::Nil)),
    };
    match r {
        Err(h) => (m1, Err(h)),
        Ok(v) => (sp_define(m1, s.variable.text@, v), Ok(OutModel::Norm(Val::Nil))),
    }
}

/// A block runs its declarations in a fresh child scope, which stops being
/// current when the block ends (it survives in the table for any closure
/// that captured it).  Break and return signals pass through.
pub open spec fn sp_block(m: StateModel, b: Block, fuel: nat) -> (StateModel, Result<
    OutModel,
    Halt,
>)
    decreases fuel, 2int,
{
    let m1 = sp_push_scope(m, Some(m.cur));
    let (m2, r) = sp_stmts(m1, b.decs@, 0, fuel);
    let m3 = StateModel { cur: m.cur, ..m2 };
    match r {
        Err(h) => (m3, Err(h)),
        Ok(OutModel::Norm(_)) => (m3, Ok(OutModel::Norm(Val::Nil))),
        Ok(o) => (m3, Ok(o)),
    }
}

/// Runs statements from position `i` in order, stopping at the first break,
/// return, or failure.
pub open spec fn sp_stmts(m: StateModel, ss: Seq<StmtRef>, i: int, fuel: nat) -> (StateModel,
Result<OutModel, Halt>)
    decreases fuel, 1int,
{
    if fuel == 0 {
        (m, Err(Halt::Exhausted))
    } else if !(0 <= i < ss.len()) {
        (m, Ok(OutModel::Norm(Val::Nil)))
    } else {
        let (m1, r) = sp_stmt(m, *ss[i], fuel);
        match r {
            Err(h) => (m1, Err(h)),
            Ok(OutModel::Norm(_)) => sp_stmts(m1, ss, i + 1, (fuel - 1) as nat),
            Ok(o) => (m1, Ok(o)),
        }
    }
}

/// A conditional executes exactly one branch, by the condition's
/// truthiness.
pub open spec fn sp_if(m: StateModel, s: IfStmt, fuel: nat) -> (StateModel, Result<OutModel, Halt>)
    decreases fuel, 2int,
{
    let (m1, r) = sp_expr(m, *s.expr, fuel);
    match r {
        Err(h) => (m1, Err(h)),
        Ok(v) => if truthy(v) {
            sp_stmt(m1, *s.stmt, fuel)
        } else {
            match s.elstmt {
                Some(el) => sp_stmt(m1, *el, fuel),
                None => (m1, Ok(OutModel::Norm(Val::Nil))),
            }
        },
    }
}

/// A while loop re-evaluates its condition before each iteration.  A break
/// from the body is consumed here, ending only this loop; a return passes
/// through unchanged.
pub open spec fn sp_while(m: StateModel, w: WhileStmt, fuel: nat) -> (StateModel, Result<
    OutModel,
    Halt,
>)
    decreases fuel, 2int,
{
    if fuel == 0 {
        (m, Err(Halt::Exhausted))
    } else {
        let (m1, r) = sp_expr(m, *w.expr, fuel);
        match r {
            Err(h) => (m1, Err(h)),
            Ok(v) => if !truthy(v) {
                (m1, Ok(OutModel::Norm(Val::Nil)))
            } else {
                let (m2, r2) = sp_stmt(m1, *w.stmt, fuel);
                match r2 {
                    Err(h) => (m2, Err(h)),
                    Ok(OutModel::Break) => (m2, Ok(OutModel::Norm(Val::Nil))),
                    Ok(OutModel::Return(v2)) => (m2, Ok(OutModel::Return(v2))),
                    Ok(OutModel::Norm(_)) => sp_while(m2, w, (fuel - 1) as nat),
                }
            },
        }
    }
}

/// `return` yields its expression's value, or nil without one.
pub open spec fn sp_return(m: StateModel, s: ReturnStmt, fuel: nat) -> (StateModel, Result<
    OutModel,
    Halt,
>)
    decreases fuel, 2int,
{
    let (m1, r) = match s.expr {
        Some(e) => sp_expr(m, *e, fuel),
        None => (m, Ok(Val::Nil)),
    };
    match r {
        Err(h) => (m1, Err(h)),
        Ok(v) => (m1, Ok(OutModel::Return(v))),
    }
}

/// The engine state right after startup: one global scope binding the two
/// natives, the two native function objects, no output, no diagnostics, and
/// the clock seeded with `t`.
pub open spec fn initial_state(t: i64) -> StateModel {
    StateModel {
        scopes: seq![
            ScopeModel {
                vars: seq![("log"@, Val::Fun(0)), ("clock"@, Val::Fun(1))],
                parent: None,
            },
        ],
        funs: seq![
            FunModel { params: seq![""@], code: CodeModel::Native(NativeFn::Log), closure: None },
            FunModel {
                params: Seq::empty(),
                code: CodeModel::Native(NativeFn::Clock),
                closure: None,
            },
        ],
        cur: 0,
        output: Seq::empty(),
        diags: Seq::empty(),
        time: t,
    }
}



/// A statement outcome is well formed when any value it carries is.
pub open spec fn out_wf(o: OutModel, m: StateModel) -> bool {
    match o {
        OutModel::Norm(v) => val_wf(v, m),
        OutModel::Break => true,
        OutModel::Return(v) => val_wf(v, m),
    }
}

/// Changing only the current-scope index preserves the engine invariant.
pub proof fn lemma_wf_with_cur(m: StateModel, c: int)
    requires
        state_wf(m),
        0 <= c < m.scopes.len(),
    ensures
        state_wf(StateModel { cur: c, ..m }),
{
    let m2 = StateModel { cur: c, ..m };
    assert forall|i: int| 0 <= i < m2.scopes.len() implies scope_wf(
        #[trigger] m2.scopes[i],
        i,
        m2,
    ) by {
        assert(scope_wf(m.scopes[i], i, m));
        assert forall|j: int| 0 <= j < m2.scopes[i].vars.len() implies val_wf(
            (#[trigger] m2.scopes[i].vars[j]).1,
            m2,
        ) by {
            assert(val_wf(m.scopes[i].vars[j].1, m));
        }
    }
    assert forall|i: int| 0 <= i < m2.funs.len() implies fun_wf(#[trigger] m2.funs[i], m2) by {
        assert(fun_wf(m.funs[i], m));
    }
}

/// Builds the diagnostic text for an undefined variable.
fn undefined_var_text(name: &String) -> (s: String)
    ensures
        s@ == undefined_var_msg(name@),
{
    String::from_str("undefined variable (").concat(name.as_str()).concat(")")
}

/// Builds the diagnostic text for a malformed numeric literal.
fn invalid_number_text(text: &String) -> (s: String)
    ensures
        s@ == invalid_number_msg(text@),
{
    String::from_str("invalid number (").concat(text.as_str()).concat(")")
}

/// Builds the diagnostic text for a binary operator's operand error.
fn binop_err_text(op: TokenKind, k: ErrKind) -> (s: String)
    ensures
        s@ == binop_err_msg(op, k),
{
    if k == ErrKind::DivisionByZero {
        String::from_str("division by zero")
    } else if op == TokenKind::Plus {
        String::from_str("operator '+' can only be used on number or string types")
    } else {
        String::from_str("operands must be numbers")
    }
}

/// Builds the logging native's output line from position `i` on.
fn log_line(args: &Vec<Value>, i: usize) -> (s: String)
    requires
        i <= args@.len(),
    ensures
        s@ == log_text(vals_view(args@), i as int),
    decreases args@.len() - i,
{
    if i >= args.len() {
        String::new()
    } else {
        let mut s = display_value(&args[i]);
        if i + 1 < args.len() {
            s.append(" ");
            let rest = log_line(args, i + 1);
            s.append(rest.as_str());
        }
        s
    }
}

/// The parameter names of a declaration, as strings.
fn param_names(params: &Vec<Token>) -> (r: Vec<String>)
    ensures
        r@.map_values(|s: String| s@) == params@.map_values(|t: Token| t.text@),
{
    let mut r: Vec<String> = Vec::new();
    let mut i: usize = 0;
    while i < params.len()
        invariant
            i <= params@.len(),
            r@.len() == i,
            forall|k: int| 0 <= k < i ==> (#[trigger] r@[k])@ == params@[k].text@,
        decreases params@.len() - i,
    {
        r.push(params[i].text.clone());
        i = i + 1;
    }
    proof {
        assert(r@.map_values(|s: String| s@) =~= params@.map_values(|t: Token| t.text@));
    }
    r
}

/// Relies on `std::time::SystemTime::now` and `duration_since`: a
/// nonnegative count of milliseconds since the epoch, saturated to the
/// number range (zero if the system clock reads before the epoch).
#[verifier::external_body]
fn now_millis() -> (t: i64)
    ensures
        0 <= t,
{
    match std::time::SystemTime::now().duration_since(std::time::UNIX_EPOCH) {
        Ok(d) => {
            let ms = d.as_millis();
            if ms > i64::MAX as u128 {
                i64::MAX
            } else {
                ms as i64
            }
        },
        Err(_) => 0,
    }
}

impl Interpretor {
    /// Starts an engine: one global scope with the two natives installed,
    /// and the clock seeded from the host's wall clock.
    pub fn create() -> (it: Interpretor)
        ensures
            it@ == initial_state(it@.time),
            state_wf(it@),
    {
        let mut funs: Vec<Function> = Vec::new();
        let mut nats = all_natives();
        let clock_pair = nats.remove(1);
        let log_pair = nats.remove(0);
        let mut vars: Vec<(String, Value)> = Vec::new();
        vars.push((log_pair.0, Value::Function(0)));
        vars.push((clock_pair.0, Value::Function(1)));
        funs.push(log_pair.1);
        funs.push(clock_pair.1);
        let mut scopes: Vec<Scope> = Vec::new();
        scopes.push(Scope { vars, parent: None });
        let it = Interpretor {
            scopes,
            funs,
            cur: 0,
            output: Vec::new(),
            diags: Vec::new(),
            time: now_millis(),
        };
        proof {
            let ini = initial_state(it.time);
            assert(it@.scopes =~~= ini.scopes);
            assert(it@.funs =~~= ini.funs);
            assert(it@.output =~= ini.output);
            assert(it@.diags =~= ini.diags);
            assert(it@ =~= ini);
            assert forall|i: int| 0 <= i < it@.scopes.len() implies scope_wf(
                #[trigger] it@.scopes[i],
                i,
                it@,
            ) by {
                assert(it@.scopes[0].parent is None);
                assert forall|j: int| 0 <= j < it@.scopes[0].vars.len() implies val_wf(
                    (#[trigger] it@.scopes[0].vars[j]).1,
                    it@,
                ) by {
                    assert(j == 0 || j == 1);
                }
            }
            assert forall|i: int| 0 <= i < it@.funs.len() implies fun_wf(
                #[trigger] it@.funs[i],
                it@,
            ) by {
                assert(i == 0 || i == 1);
            }
        }
        it
    }

    /// The output lines written so far by `print` and the logging native.
    pub fn output(&self) -> (o: &Vec<String>)
        ensures
            o@.map_values(|s: String| s@) == self@.output,
    {
        &self.output
    }

    /// The diagnostics reported so far, in order.
    pub fn diags(&self) -> (d: &Vec<Diag>)
        ensures
            d@.map_values(|x: Diag| x@) == self@.diags,
    {
        &self.diags
    }

    /// Evaluates an expression, computing exactly what `sp_expr` says.
    pub fn eval_expr(&mut self, e: &Expr, fuel: u64) -> (r: Result<Value, Halt>)
        requires
            state_wf(old(self)@),
        ensures
            state_wf(final(self)@),
            old(self)@.funs.len() <= final(self)@.funs.len(),
            old(self)@.scopes.len() <= final(self)@.scopes.len(),
            final(self)@ == sp_expr(old(self)@, *e, fuel as nat).0,
            res_val_eq(r, sp_expr(old(self)@, *e, fuel as nat).1),
            r matches Ok(v) ==> val_wf(v@, final(self)@),
        decreases fuel, 0int,
    {
        if fuel == 0 {
            return Err(Halt::Exhausted);
        }
        let f = fuel - 1;
        match e {
            Expr::Literal(l) => self.interpret_literal(l),
            Expr::Group(g) => self.interpret_group(g, f),
            Expr::Unary(u) => self.interpret_unary(u, f),
            Expr::Binary(b) => self.interpret_binary(b, f),
            Expr::Assign(a) => self.interpret_assignment(a, f),
            Expr::Call(c) => self.interpret_fun_call(c, f),
            Expr::Lambda(d) => self.interpret_fun_def(d),
        }
    }

    /// Evaluates a literal: a number token parses its text, a string token
    /// strips its delimiting quotes, keyword literals map directly, and an
    /// identifier resolves through the scope chain.
    pub fn interpret_literal(&mut self, node: &LiteralExpr) -> (r: Result<Value, Halt>)
        requires
            state_wf(old(self)@),
        ensures
            state_wf(final(self)@),
            old(self)@.funs.len() <= final(self)@.funs.len(),
            old(self)@.scopes.len() <= final(self)@.scopes.len(),
            final(self)@ == sp_literal(old(self)@, node.token).0,
            res_val_eq(r, sp_literal(old(self)@, node.token).1),
            r matches Ok(v) ==> val_wf(v@, final(self)@),
    {
        let k = node.token.kind;
        if k == TokenKind::Nil {
            Ok(Value::Nil)
        } else if k == TokenKind::True {
            Ok(Value::Boolean(true))
        } else if k == TokenKind::False {
            Ok(Value::Boolean(false))
        } else if k == TokenKind::Number {
            match parse_number(node.token.text.as_str()) {
                Some(n) => Ok(Value::Number(n)),
                None => {
                    let msg = invalid_number_text(&node.token.text);
                    Err(self.report(ErrKind::NumberFormat, node.token.line, msg))
                },
            }
        } else if k == TokenKind::String {
            let len = node.token.text.as_str().unicode_len();
            if len >= 2 {
                let inner = node.token.text.as_str().substring_char(1, len - 1);
                Ok(Value::String(inner.to_owned()))
            } else {
                let h = self.report(
                    ErrKind::RuntimeType,
                    node.token.line,
                    String::from_str("invalid string literal"),
                );
                Err(h)
            }
        } else if k == TokenKind::Identifier {
            match self.lookup(&node.token.text) {
                Some(v) => Ok(v),
                None => {
                    let msg = undefined_var_text(&node.token.text);
                    Err(self.report(ErrKind::UndefinedVariable, node.token.line, msg))
                },
            }
        } else {
            let h = self.report(
                ErrKind::RuntimeType,
                node.token.line,
                String::from_str("invalid literal"),
            );
            Err(h)
        }
    }

    /// A grouping passes its inner value through unchanged.
    pub fn interpret_group(&mut self, node: &GroupExpr, fuel: u64) -> (r: Result<Value, Halt>)
        requires
            state_wf(old(self)@),
        ensures
            state_wf(final(self)@),
            old(self)@.funs.len() <= final(self)@.funs.len(),
            old(self)@.scopes.len() <= final(self)@.scopes.len(),
            final(self)@ == sp_group(old(self)@, *node, fuel as nat).0,
            res_val_eq(r, sp_group(old(self)@, *node, fuel as nat).1),
            r matches Ok(v) ==> val_wf(v@, final(self)@),
        decreases fuel, 2int,
    {
        self.eval_expr(&*node.expr, fuel)
    }

    /// Evaluates the operand, then applies the unary operator; `!` negates
    /// truthiness, `-` requires a number.
    pub fn interpret_unary(&mut self, node: &UnaryExpr, fuel: u64) -> (r: Result<Value, Halt>)
        requires
            state_wf(old(self)@),
        ensures
            state_wf(final(self)@),
            old(self)@.funs.len() <= final(self)@.funs.len(),
            old(self)@.scopes.len() <= final(self)@.scopes.len(),
            final(self)@ == sp_unary(old(self)@, *node, fuel as nat).0,
            res_val_eq(r, sp_unary(old(self)@, *node, fuel as nat).1),
            r matches Ok(v) ==> val_wf(v@, final(self)@),
        decreases fuel, 2int,
    {
        let v = match self.eval_expr(&*node.expr, fuel) {
            Ok(v) => v,
            Err(h) => {
                return Err(h);
            },
        };
        match apply_unary_op(node.token.kind, &v) {
            Ok(w) => Ok(w),
            Err(k) => {
                let h = self.report(
                    k,
                    node.token.line,
                    String::from_str("expected number after '-'"),
                );
                Err(h)
            },
        }
    }

    /// Evaluates both operands left to right, then applies the binary
    /// operator.
    pub fn interpret_binary(&mut self, node: &BinaryExpr, fuel: u64) -> (r: Result<Value, Halt>)
        requires
            state_wf(old(self)@),
        ensures
            state_wf(final(self)@),
            old(self)@.funs.len() <= final(self)@.funs.len(),
            old(self)@.scopes.len() <= final(self)@.scopes.len(),
            final(self)@ == sp_binary(old(self)@, *node, fuel as nat).0,
            res_val_eq(r, sp_binary(old(self)@, *node, fuel as nat).1),
            r matches Ok(v) ==> val_wf(v@, final(self)@),
        decreases fuel, 2int,
    {
        let a = match self.eval_expr(&*node.lexpr, fuel) {
            Ok(v) => v,
            Err(h) => {
                return Err(h);
            },
        };
        let b = match self.eval_expr(&*node.rexpr, fuel) {
            Ok(v) => v,
            Err(h) => {
                return Err(h);
            },
        };
        match apply_binary_op(node.token.kind, &a, &b) {
            Ok(w) => Ok(w),
            Err(k) => {
                let msg = binop_err_text(node.token.kind, k);
                let h = self.report(k, node.token.line, msg);
                Err(h)
            },
        }
    }

    /// Evaluates the right-hand side, then mutates the nearest enclosing
    /// binding; assigning an undeclared name is an error and never creates
    /// a binding.  Yields the assigned value.
    pub fn interpret_assignment(&mut self, node: &AssignExpr, fuel: u64) -> (r: Result<
        Value,
        Halt,
    >)
        requires
            state_wf(old(self)@),
        ensures
            state_wf(final(self)@),
            old(self)@.funs.len() <= final(self)@.funs.len(),
            old(self)@.scopes.len() <= final(self)@.scopes.len(),
            final(self)@ == sp_assign_expr(old(self)@, *node, fuel as nat).0,
            res_val_eq(r, sp_assign_expr(old(self)@, *node, fuel as nat).1),
            r matches Ok(v) ==> val_wf(v@, final(self)@),
        decreases fuel, 2int,
    {
        let v = match self.eval_expr(&*node.expr, fuel) {
            Ok(v) => v,
            Err(h) => {
                return Err(h);
            },
        };
        let v2 = value_dup(&v);
        let found = self.assign(&node.variable.text, v2);
        if found {
            Ok(v)
        } else {
            let msg = undefined_var_text(&node.variable.text);
            let h = self.report(ErrKind::UndefinedVariable, node.variable.line, msg);
            Err(h)
        }
    }

    /// Evaluates an anonymous function expression: a new function value
    /// capturing the current scope.
    pub fn interpret_fun_def(&mut self, node: &FunDef) -> (r: Result<Value, Halt>)
        requires
            state_wf(old(self)@),
        ensures
            state_wf(final(self)@),
            old(self)@.funs.len() <= final(self)@.funs.len(),
            old(self)@.scopes.len() <= final(self)@.scopes.len(),
            final(self)@ == sp_make_fun(old(self)@, node.params@, node.block).0,
            res_val_eq(r, Ok(Val::Fun(sp_make_fun(old(self)@, node.params@, node.block).1))),
            r matches Ok(v) ==> val_wf(v@, final(self)@),
    {
        let names = param_names(&node.params);
        let body = share_stmt(&node.block);
        let cur = self.cur;
        let f = Function { params: names, code: Implementation::LoxImpl(body), closure: Some(cur) };
        proof {
            assert(f@ =~~= sp_make_fun(old(self)@, node.params@, node.block).0.funs.last());
        }
        let i = self.push_fun(f);
        proof {
            assert(self@ =~= sp_make_fun(old(self)@, node.params@, node.block).0);
        }
        Ok(Value::Function(i))
    }

    /// Evaluates a call: the callee, then each argument left to right, then
    /// the dispatch.
    pub fn interpret_fun_call(&mut self, node: &FunCall, fuel: u64) -> (r: Result<Value, Halt>)
        requires
            state_wf(old(self)@),
        ensures
            state_wf(final(self)@),
            old(self)@.funs.len() <= final(self)@.funs.len(),
            old(self)@.scopes.len() <= final(self)@.scopes.len(),
            final(self)@ == sp_call_expr(old(self)@, *node, fuel as nat).0,
            res_val_eq(r, sp_call_expr(old(self)@, *node, fuel as nat).1),
            r matches Ok(v) ==> val_wf(v@, final(self)@),
        decreases fuel, 2int,
    {
        let cv = match self.eval_expr(&*node.callee, fuel) {
            Ok(v) => v,
            Err(h) => {
                return Err(h);
            },
        };
        let argv = match self.eval_args(&node.args, 0, fuel) {
            Ok(a) => a,
            Err(h) => {
                return Err(h);
            },
        };
        match cv {
            Value::Function(i) => self.invoke(i, argv, node.line, fuel),
            _ => {
                let h = self.report(
                    ErrKind::UndefinedFunction,
                    node.line,
                    String::from_str("can only call functions"),
                );
                Err(h)
            },
        }
    }

    /// Evaluates the argument expressions from position `i` on.
    fn eval_args(&mut self, args: &Vec<ExprRef>, i: usize, fuel: u64) -> (r: Result<
        Vec<Value>,
        Halt,
    >)
        requires
            state_wf(old(self)@),
            i <= args@.len(),
        ensures
            state_wf(final(self)@),
            old(self)@.funs.len() <= final(self)@.funs.len(),
            old(self)@.scopes.len() <= final(self)@.scopes.len(),
            final(self)@ == sp_args(old(self)@, args@, i as int, fuel as nat).0,
            res_vals_eq(r, sp_args(old(self)@, args@, i as int, fuel as nat).1),
            r matches Ok(vs) ==> vals_wf(vals_view(vs@), final(self)@),
        decreases fuel, 1int,
    {
        if fuel == 0 {
            return Err(Halt::Exhausted);
        }
        if i >= args.len() {
            proof {
                assert(vals_view(Seq::<Value>::empty()) =~= Seq::<Val>::empty());
            }
            return Ok(Vec::new());
        }
        let v = match self.eval_expr(&*args[i], fuel) {
            Ok(v) => v,
            Err(h) => {
                return Err(h);
            },
        };
        let rest = match self.eval_args(args, i + 1, fuel - 1) {
            Ok(rest) => rest,
            Err(h) => {
                return Err(h);
            },
        };
        let ghost rest_view = vals_view(rest@);
        let ghost mid = self@;
        let ghost vm = v@;
        let mut out = rest;
        out.insert(0, v);
        proof {
            assert(vals_view(out@) =~= seq![vm] + rest_view);
            assert forall|k: int| 0 <= k < vals_view(out@).len() implies val_wf(
                #[trigger] vals_view(out@)[k],
                self@,
            ) by {
                if k == 0 {
                    assert(val_wf(vm, mid));
                } else {
                    assert(val_wf(rest_view[k - 1], self@));
                }
            }
        }
        Ok(out)
    }

    /// Calls function `fi` on already-evaluated arguments: a native
    /// consumes them directly; a user function checks arity, binds
    /// parameters in a fresh scope chained to its captured environment, and
    /// runs its body.  A return ends the body and yields its value; a body
    /// that completes (or breaks) yields nil.
    fn invoke(&mut self, fi: usize, args: Vec<Value>, line: u64, fuel: u64) -> (r: Result<
        Value,
        Halt,
    >)
        requires
            state_wf(old(self)@),
            (fi as int) < old(self)@.funs.len(),
            vals_wf(vals_view(args@), old(self)@),
        ensures
            state_wf(final(self)@),
            old(self)@.funs.len() <= final(self)@.funs.len(),
            old(self)@.scopes.len() <= final(self)@.scopes.len(),
            final(self)@ == sp_invoke(old(self)@, fi as int, vals_view(args@), line, fuel as nat).0,
            res_val_eq(r, sp_invoke(old(self)@, fi as int, vals_view(args@), line, fuel as nat).1),
            r matches Ok(v) ==> val_wf(v@, final(self)@),
        decreases fuel, 1int,
    {
        let fun = self.funs[fi].duplicate();
        proof {
            assert(fun@ == self@.funs[fi as int]);
            assert(fun_wf(self@.funs[fi as int], self@));
        }
        match fun.code {
            Implementation::NativeImpl(NativeFn::Log) => {
                let text = log_line(&args, 0);
                self.write_out(text);
                Ok(Value::Nil)
            },
            Implementation::NativeImpl(NativeFn::Clock) => {
                let t = self.tick();
                Ok(Value::Number(t))
            },
            Implementation::LoxImpl(body) => {
                if fun.params.len() != args.len() {
                    let h = self.report(
                        ErrKind::ArityMismatch,
                        line,
                        String::from_str("wrong number of arguments"),
                    );
                    return Err(h);
                }
                let saved = self.cur;
                let parent: usize = match fun.closure {
                    Some(c) => c,
                    None => 0,
                };
                self.push_scope(Some(parent));
                self.bind_args(&fun.params, &args, 0);
                let rr = self.exec_stmt(&*body, fuel);
                let ghost m_before = self@;
                self.cur = saved;
                proof {
                    lemma_wf_with_cur(m_before, saved as int);
                }
                match rr {
                    Err(h) => Err(h),
                    Ok(Outcome::Return(v)) => Ok(v),
                    Ok(_) => Ok(Value::Nil),
                }
            },
        }
    }

    /// Binds parameters positionally, from position `i` on, in the current
    /// scope.
    fn bind_args(&mut self, params: &Vec<String>, args: &Vec<Value>, i: usize)
        requires
            state_wf(old(self)@),
            params@.len() == args@.len(),
            i <= params@.len(),
            vals_wf(vals_view(args@), old(self)@),
        ensures
            state_wf(final(self)@),
            final(self)@ == sp_bind(
                old(self)@,
                params@.map_values(|s: String| s@),
                vals_view(args@),
                i as int,
            ),
            final(self)@.funs == old(self)@.funs,
            final(self)@.scopes.len() == old(self)@.scopes.len(),
            final(self)@.cur == old(self)@.cur,
        decreases params@.len() - i,
    {
        if i < params.len() {
            let v = value_dup(&args[i]);
            proof {
                assert(vals_view(args@)[i as int] == args@[i as int]@);
                assert(val_wf(vals_view(args@)[i as int], old(self)@));
            }
            self.define(&params[i], v);
            proof {
                assert forall|k: int| 0 <= k < vals_view(args@).len() implies val_wf(
                    #[trigger] vals_view(args@)[k],
                    self@,
                ) by {
                    assert(val_wf(vals_view(args@)[k], old(self)@));
                }
            }
            self.bind_args(params, args, i + 1);
        }
    }

    /// Executes a statement, computing exactly what `sp_stmt` says.
    pub fn exec_stmt(&mut self, s: &Stmt, fuel: u64) -> (r: Result<Outcome, Halt>)
        requires
            state_wf(old(self)@),
        ensures
            state_wf(final(self)@),
            old(self)@.funs.len() <= final(self)@.funs.len(),
            old(self)@.scopes.len() <= final(self)@.scopes.len(),
            final(self)@ == sp_stmt(old(self)@, *s, fuel as nat).0,
            res_out_eq(r, sp_stmt(old(self)@, *s, fuel as nat).1),
            r matches Ok(o) ==> out_wf(o@, final(self)@),
        decreases fuel, 0int,
    {
        if fuel == 0 {
            return Err(Halt::Exhausted);
        }
        let f = fuel - 1;
        match s {
            Stmt::Expr(es) => self.interpret_expr_stmt(es, f),
            Stmt::Print(ps) => self.interpret_print_stmt(ps, f),
            Stmt::Var(vd) => self.interpret_var_decl(vd, f),
            Stmt::Fun(fd) => self.interpret_fun_decl(fd),
            Stmt::Block(b) => self.interpret_block(b, f),
            Stmt::Program(p) => self.exec_stmts(&p.decs, 0, f),
            Stmt::If(i) => self.interpret_if_stmt(i, f),
            Stmt::While(w) => self.interpret_while_stmt(w, f),
            Stmt::Break(_) => Ok(Outcome::Break),
            Stmt::Return(rs) => self.interpret_return_stmt(rs, f),
        }
    }

    /// An expression statement yields its value as a normal outcome.
    pub fn interpret_expr_stmt(&mut self, node: &ExprStmt, fuel: u64) -> (r: Result<Outcome, Halt>)
        requires
            state_wf(old(self)@),
        ensures
            state_wf(final(self)@),
            old(self)@.funs.len() <= final(self)@.funs.len(),
            old(self)@.scopes.len() <= final(self)@.scopes.len(),
            final(self)@ == sp_expr_stmt(old(self)@, *node, fuel as nat).0,
            res_out_eq(r, sp_expr_stmt(old(self)@, *node, fuel as nat).1),
            r matches Ok(o) ==> out_wf(o@, final(self)@),
        decreases fuel, 2int,
    {
        match self.eval_expr(&*node.expr, fuel) {
            Ok(v) => Ok(Outcome::Norm(v)),
            Err(h) => Err(h),
        }
    }

    /// `print` writes the value's display form as one output line and
    /// completes normally.
    pub fn interpret_print_stmt(&mut self, node: &PrintStmt, fuel: u64) -> (r: Result<
        Outcome,
        Halt,
    >)
        requires
            state_wf(old(self)@),
        ensures
            state_wf(final(self)@),
            old(self)@.funs.len() <= final(self)@.funs.len(),
            old(self)@.scopes.len() <= final(self)@.scopes.len(),
            final(self)@ == sp_print_stmt(old(self)@, *node, fuel as nat).0,
            res_out_eq(r, sp_print_stmt(old(self)@, *node, fuel as nat).1),
            r matches Ok(o) ==> out_wf(o@, final(self)@),
        decreases fuel, 2int,
    {
        let v = match self.eval_expr(&*node.expr, fuel) {
            Ok(v) => v,
            Err(h) => {
                return Err(h);
            },
        };
        let text = display_value(&v);
        self.write_out(text);
        Ok(Outcome::Norm(Value::Nil))
    }

    /// A declaration binds a name in the current scope, to its
    /// initializer's value or to nil.
    pub fn interpret_var_decl(&mut self, node: &VarDecl, fuel: u64) -> (r: Result<Outcome, Halt>)
        requires
            state_wf(old(self)@),
        ensures
            state_wf(final(self)@),
            old(self)@.funs.len() <= final(self)@.funs.len(),
            old(self)@.scopes.len() <= final(self)@.scopes.len(),
            final(self)@ == sp_var_decl(old(self)@, *node, fuel as nat).0,
            res_out_eq(r, sp_var_decl(old(self)@, *node, fuel as nat).1),
            r matches Ok(o) ==> out_wf(o@, final(self)@),
        decreases fuel, 2int,
    {
        let v = match &node.expr {
            Some(e) => match self.eval_expr(&**e, fuel) {
                Ok(v) => v,
                Err(h) => {
                    return Err(h);
                },
            },
            None => Value::Nil,
        };
        self.define(&node.variable.text, v);
        Ok(Outcome::Norm(Value::Nil))
    }

    /// A named declaration creates the function value, capturing the
    /// current scope, and binds the name in it: the function can therefore
    /// call itself.
    pub fn interpret_fun_decl(&mut self, node: &FunDecl) -> (r: Result<Outcome, Halt>)
        requires
            state_wf(old(self)@),
        ensures
            state_wf(final(self)@),
            old(self)@.funs.len() <= final(self)@.funs.len(),
            old(self)@.scopes.len() <= final(self)@.scopes.len(),
            final(self)@ == sp_define(
                sp_make_fun(old(self)@, node.params@, node.block).0,
                node.name.text@,
                Val::Fun(sp_make_fun(old(self)@, node.params@, node.block).1),
            ),
            res_out_eq(r, Ok(OutModel::Norm(Val::Nil))),
            r matches Ok(o) ==> out_wf(o@, final(self)@),
    {
        let names = param_names(&node.params);
        let body = share_stmt(&node.block);
        let cur = self.cur;
        let f = Function { params: names, code: Implementation::LoxImpl(body), closure: Some(cur) };
        proof {
            assert(f@ =~~= sp_make_fun(old(self)@, node.params@, node.block).0.funs.last());
        }
        let i = self.push_fun(f);
        proof {
            assert(self@ =~= sp_make_fun(old(self)@, node.params@, node.block).0);
        }
        self.define(&node.name.text, Value::Function(i));
        Ok(Outcome::Norm(Value::Nil))
    }

    /// A block runs its declarations in a fresh child scope; the parent
    /// scope becomes current again when the block ends.
    pub fn interpret_block(&mut self, node: &Block, fuel: u64) -> (r: Result<Outcome, Halt>)
        requires
            state_wf(old(self)@),
        ensures
            state_wf(final(self)@),
            old(self)@.funs.len() <= final(self)@.funs.len(),
            old(self)@.scopes.len() <= final(self)@.scopes.len(),
            final(self)@ == sp_block(old(self)@, *node, fuel as nat).0,
            res_out_eq(r, sp_block(old(self)@, *node, fuel as nat).1),
            r matches Ok(o) ==> out_wf(o@, final(self)@),
        decreases fuel, 2int,
    {
        let saved = self.cur;
        self.push_scope(Some(saved));
        let rr = self.exec_stmts(&node.decs, 0, fuel);
        let ghost m_before = self@;
        self.cur = saved;
        proof {
            lemma_wf_with_cur(m_before, saved as int);
        }
        match rr {
            Err(h) => Err(h),
            Ok(Outcome::Norm(_)) => Ok(Outcome::Norm(Value::Nil)),
            Ok(Outcome::Break) => Ok(Outcome::Break),
            Ok(Outcome::Return(v)) => Ok(Outcome::Return(v)),
        }
    }

    /// Runs statements from position `i` in order, stopping at the first
    /// break, return, or failure.
    pub fn exec_stmts(&mut self, ss: &Vec<StmtRef>, i: usize, fuel: u64) -> (r: Result<
        Outcome,
        Halt,
    >)
        requires
            state_wf(old(self)@),
            i <= ss@.len(),
        ensures
            state_wf(final(self)@),
            old(self)@.funs.len() <= final(self)@.funs.len(),
            old(self)@.scopes.len() <= final(self)@.scopes.len(),
            final(self)@ == sp_stmts(old(self)@, ss@, i as int, fuel as nat).0,
            res_out_eq(r, sp_stmts(old(self)@, ss@, i as int, fuel as nat).1),
            r matches Ok(o) ==> out_wf(o@, final(self)@),
        decreases fuel, 1int,
    {
        if fuel == 0 {
            return Err(Halt::Exhausted);
        }
        if i >= ss.len() {
            return Ok(Outcome::Norm(Value::Nil));
        }
        let rr = self.exec_stmt(&*ss[i], fuel);
        match rr {
            Err(h) => Err(h),
            Ok(Outcome::Norm(_)) => self.exec_stmts(ss, i + 1, fuel - 1),
            Ok(Outcome::Break) => Ok(Outcome::Break),
            Ok(Outcome::Return(v)) => Ok(Outcome::Return(v)),
        }
    }

    /// A conditional executes exactly one branch, by the condition's
    /// truthiness.
    pub fn interpret_if_stmt(&mut self, node: &IfStmt, fuel: u64) -> (r: Result<Outcome, Halt>)
        requires
            state_wf(old(self)@),
        ensures
            state_wf(final(self)@),
            old(self)@.funs.len() <= final(self)@.funs.len(),
            old(self)@.scopes.len() <= final(self)@.scopes.len(),
            final(self)@ == sp_if(old(self)@, *node, fuel as nat).0,
            res_out_eq(r, sp_if(old(self)@, *node, fuel as nat).1),
            r matches Ok(o) ==> out_wf(o@, final(self)@),
        decreases fuel, 2int,
    {
        let c = match self.eval_expr(&*node.expr, fuel) {
            Ok(v) => v,
            Err(h) => {
                return Err(h);
            },
        };
        if c.truth() {
            self.exec_stmt(&*node.stmt, fuel)
        } else {
            match &node.elstmt {
                Some(el) => self.exec_stmt(&**el, fuel),
                None => Ok(Outcome::Norm(Value::Nil)),
            }
        }
    }

    /// A while loop re-evaluates its condition before each iteration.  A
    /// break from the body ends only this loop; a return passes through.
    pub fn interpret_while_stmt(&mut self, node: &WhileStmt, fuel: u64) -> (r: Result<
        Outcome,
        Halt,
    >)
        requires
            state_wf(old(self)@),
        ensures
            state_wf(final(self)@),
            old(self)@.funs.len() <= final(self)@.funs.len(),
            old(self)@.scopes.len() <= final(self)@.scopes.len(),
            final(self)@ == sp_while(old(self)@, *node, fuel as nat).0,
            res_out_eq(r, sp_while(old(self)@, *node, fuel as nat).1),
            r matches Ok(o) ==> out_wf(o@, final(self)@),
        decreases fuel, 2int,
    {
        if fuel == 0 {
            return Err(Halt::Exhausted);
        }
        let c = match self.eval_expr(&*node.expr, fuel) {
            Ok(v) => v,
            Err(h) => {
                return Err(h);
            },
        };
        if !c.truth() {
            return Ok(Outcome::Norm(Value::Nil));
        }
        let rr = self.exec_stmt(&*node.stmt, fuel);
        match rr {
            Err(h) => Err(h),
            Ok(Outcome::Break) => Ok(Outcome::Norm(Value::Nil)),
            Ok(Outcome::Return(v)) => Ok(Outcome::Return(v)),
            Ok(Outcome::Norm(_)) => self.interpret_while_stmt(node, fuel - 1),
        }
    }

    /// `return` yields its expression's value, or nil without one.
    pub fn interpret_return_stmt(&mut self, node: &ReturnStmt, fuel: u64) -> (r: Result<
        Outcome,
        Halt,
    >)
        requires
            state_wf(old(self)@),
        ensures
            state_wf(final(self)@),
            old(self)@.funs.len() <= final(self)@.funs.len(),
            old(self)@.scopes.len() <= final(self)@.scopes.len(),
            final(self)@ == sp_return(old(self)@, *node, fuel as nat).0,
            res_out_eq(r, sp_return(old(self)@, *node, fuel as nat).1),
            r matches Ok(o) ==> out_wf(o@, final(self)@),
        decreases fuel, 2int,
    {
        let v = match &node.expr {
            Some(e) => match self.eval_expr(&**e, fuel) {
                Ok(v) => v,
                Err(h) => {
                    return Err(h);
                },
            },
            None => Value::Nil,
        };
        Ok(Outcome::Return(v))
    }

    /// Runs a whole program tree against this engine's state.  The engine
    /// clock is re-read from the host wall clock first, so every run starts
    /// from a fresh reading; the run itself is then the deterministic
    /// specification-interpreter run from that freshly seeded state.
    pub fn run(&mut self, ast: &Ast, fuel: u64) -> (r: Result<Outcome, Halt>)
        requires
            state_wf(old(self)@),
        ensures
            state_wf(final(self)@),
            exists|t: i64|
                {
                    &&& 0 <= t
                    &&& final(self)@ == sp_stmt(
                        #[trigger] seeded(old(self)@, t),
                        *ast.root,
                        fuel as nat,
                    ).0
                    &&& res_out_eq(r, sp_stmt(seeded(old(self)@, t), *ast.root, fuel as nat).1)
                },
    {
        let t = now_millis();
        let ghost pre = self@;
        self.time = t;
        proof {
            lemma_wf_with_time(pre, t);
            assert(self@ == seeded(pre, t));
        }
        let r = self.exec_stmt(&*ast.root, fuel);
        proof {
            assert(self@ == sp_stmt(seeded(pre, t), *ast.root, fuel as nat).0);
            assert(res_out_eq(r, sp_stmt(seeded(pre, t), *ast.root, fuel as nat).1));
        }
        r
    }
}

/// The engine state with its clock replaced by a fresh host reading.
pub open spec fn seeded(m: StateModel, t: i64) -> StateModel {
    StateModel { time: t, ..m }
}

/// Replacing only the clock preserves the engine invariant.
pub proof fn lemma_wf_with_time(m: StateModel, t: i64)
    requires
        state_wf(m),
    ensures
        state_wf(seeded(m, t)),
{
    let m2 = seeded(m, t);
    assert forall|i: int| 0 <= i < m2.scopes.len() implies scope_wf(
        #[trigger] m2.scopes[i],
        i,
        m2,
    ) by {
        assert(scope_wf(m.scopes[i], i, m));
        assert forall|j: int| 0 <= j < m2.scopes[i].vars.len() implies val_wf(
            (#[trigger] m2.scopes[i].vars[j]).1,
            m2,
        ) by {
            assert(val_wf(m.scopes[i].vars[j].1, m));
        }
    }
    assert forall|i: int| 0 <= i < m2.funs.len() implies fun_wf(#[trigger] m2.funs[i], m2) by {
        assert(fun_wf(m.funs[i], m));
    }
}

/// How the one-shot entry point's result relates to the specification
/// interpreter run on the startup state with clock seed `t`: the result
/// value on success, and the final diagnostic log in every case -- empty on
/// success and on budget exhaustion, and exactly one entry, at the line of
/// the failure, when a runtime error made the result `None`.
pub open spec fn check_interpret(t: i64, root: Stmt, fuel: nat, r: Option<Value>) -> bool {
    let (m2, res) = sp_stmt(initial_state(t), root, fuel);
    &&& 0 <= t
    &&& match (r, res) {
        (Some(v), Ok(o)) => v@ == (match o {
            OutModel::Norm(w) => w,
            OutModel::Return(w) => w,
            OutModel::Break => Val::Nil,
        }) && m2.diags == Seq::<DiagModel>::empty(),
        (None, Err(Halt::Exhausted)) => m2.diags == Seq::<DiagModel>::empty(),
        (None, Err(Halt::Fault(f))) => m2.diags.len() == 1 && m2.diags[0].line == f.line,
        _ => false,
    }
}

/// Evaluates a program tree in a fresh engine within the given evaluation
/// budget: the result value on success (a top-level return yields its
/// value), `None` once a runtime error has been reported or the budget is
/// exhausted.  A runtime error leaves exactly one diagnostic, at the line
/// of the offending token; success and exhaustion leave none (see
/// `check_interpret`).  A caller that needs the diagnostics themselves, or
/// to tell exhaustion from a fault, uses `Interpretor::create` and `run`.
pub fn interpret(ast: &Ast, fuel: u64) -> (r: Option<Value>)
    ensures
        exists|t: i64| #[trigger] check_interpret(t, *ast.root, fuel as nat, r),
{
    let mut engine = Interpretor::create();
    let ghost pre = engine@;
    let res = engine.run(ast, fuel);
    let out = match res {
        Ok(Outcome::Norm(v)) => Some(v),
        Ok(Outcome::Return(v)) => Some(v),
        Ok(Outcome::Break) => Some(Value::Nil),
        Err(_) => None,
    };
    proof {
        let t1 = choose|t: i64|
            {
                &&& 0 <= t
                &&& engine@ == sp_stmt(#[trigger] seeded(pre, t), *ast.root, fuel as nat).0
                &&& res_out_eq(res, sp_stmt(seeded(pre, t), *ast.root, fuel as nat).1)
            };
        assert(seeded(pre, t1) =~= initial_state(t1));
        crate::laws::lemma_stmt_reports_once(initial_state(t1), &*ast.root, fuel as nat);
        assert(check_interpret(t1, *ast.root, fuel as nat, out));
    }
    out
}


} // verus!
