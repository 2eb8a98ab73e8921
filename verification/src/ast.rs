//! The program tree.
//!
//! An immutable tree of expression and statement nodes, built once by an
//! external parser and never mutated afterward.  Children are held by
//! shared reference (`Rc`) because a function's body subtree is referenced
//! both by its declaration and by every closure value created from it.
//! The node set is closed: the evaluation engine dispatches on it with one
//! exhaustive match per syntactic class.

use vstd::prelude::*;
use std::rc::Rc;
use crate::token::Token;

verus! {

/// A shared reference to an expression node.
pub type ExprRef = Rc<Expr>;

/// A shared reference to a statement node.
pub type StmtRef = Rc<Stmt>;

/// An expression node.
pub enum Expr {
    Binary(BinaryExpr),
    Unary(UnaryExpr),
    Literal(LiteralExpr),
    Group(GroupExpr),
    Assign(AssignExpr),
    Call(FunCall),
    Lambda(FunDef),
}

/// A statement or declaration node.
pub enum Stmt {
    Expr(ExprStmt),
    Print(PrintStmt),
    Var(VarDecl),
    Block(Block),
    Program(Program),
    If(IfStmt),
    While(WhileStmt),
    Break(BreakStmt),
    Return(ReturnStmt),
    Fun(FunDecl),
}

/// The kind tag of a node, for callers that dispatch without matching the
/// node enums themselves.
pub enum AstNodeKind {
    BinaryExpr,
    UnaryExpr,
    GroupExpr,
    LiteralExpr(Token),
    ExprStmt,
    PrintStmt,
    VarDecl,
    Block,
    Program,
    IfStmt,
    WhileStmt,
    AssignExpr,
    BreakStmt,
    ReturnStmt,
    FunCall,
    FunDecl,
}

/// A node of the program tree: every node reports its kind tag.
pub trait AstNode {
    /// The kind tag this node reports.
    spec fn spec_kind(&self) -> AstNodeKind;

    /// Reports the node's kind tag.
    fn kind(&self) -> (k: AstNodeKind)
        ensures
            k == self.spec_kind(),
    ;
}

/// A binary operation: an operator token and its two operands.
pub struct BinaryExpr {
    pub token: Token,
    pub lexpr: ExprRef,
    pub rexpr: ExprRef,
}

/// A unary operation: an operator token and its operand.
pub struct UnaryExpr {
    pub token: Token,
    pub expr: ExprRef,
}

/// A literal leaf: a number, string, boolean, or nil token, or an
/// identifier to be resolved in the scope chain.
pub struct LiteralExpr {
    pub token: Token,
}

/// A parenthesized expression, passing through its inner value unchanged.
pub struct GroupExpr {
    pub expr: ExprRef,
}

/// An assignment to an already-declared name.
pub struct AssignExpr {
    pub variable: Token,
    pub expr: ExprRef,
}

/// An expression evaluated for its value and effects.
pub struct ExprStmt {
    pub expr: ExprRef,
}

/// A statement printing a value's display form on its own line.
pub struct PrintStmt {
    pub expr: ExprRef,
}

/// A declaration binding a name in the innermost scope, with an optional
/// initializer (absence binds nil).
pub struct VarDecl {
    pub variable: Token,
    pub expr: Option<ExprRef>,
}

/// The top of a program tree: declarations run in order against the global
/// scope.
pub struct Program {
    pub decs: Vec<StmtRef>,
}

/// A braced block: declarations run in order in a fresh child scope.
pub struct Block {
    pub decs: Vec<StmtRef>,
}

/// A conditional with an optional else branch.
pub struct IfStmt {
    pub expr: ExprRef,
    pub stmt: StmtRef,
    pub elstmt: Option<StmtRef>,
}

/// A while loop.
pub struct WhileStmt {
    pub expr: ExprRef,
    pub stmt: StmtRef,
}

/// A `break`, terminating the innermost enclosing loop.
pub struct BreakStmt {
    pub token: Token,
}

/// A `return`, with an optional result expression.
pub struct ReturnStmt {
    pub token: Token,
    pub expr: Option<ExprRef>,
}

/// A call: a callee expression and its arguments, with the call's line for
/// diagnostics.
pub struct FunCall {
    pub line: u64,
    pub callee: ExprRef,
    pub args: Vec<ExprRef>,
}

/// A named function declaration.
pub struct FunDecl {
    pub name: Token,
    pub params: Vec<Token>,
    pub block: StmtRef,
}

/// An anonymous function expression.
pub struct FunDef {
    pub params: Vec<Token>,
    pub block: StmtRef,
}

/// A whole program tree, owning its root node.
pub struct Ast {
    pub root: StmtRef,
}

impl BinaryExpr {
    /// Builds a binary expression node.
    pub fn create(token: Token, lexpr: ExprRef, rexpr: ExprRef) -> (e: ExprRef)
        ensures
            *e == Expr::Binary(BinaryExpr { token, lexpr, rexpr }),
    {
        Rc::new(Expr::Binary(BinaryExpr { lexpr, rexpr, token }))
    }

    pub fn rexpr(&self) -> (r: &ExprRef)
        ensures
            *r == self.rexpr,
    {
        &self.rexpr
    }

    pub fn lexpr(&self) -> (r: &ExprRef)
        ensures
            *r == self.lexpr,
    {
        &self.lexpr
    }

    pub fn token(&self) -> (t: &Token)
        ensures
            *t == self.token,
    {
        &self.token
    }
}

impl UnaryExpr {
    /// Builds a unary expression node.
    pub fn create(token: Token, expr: ExprRef) -> (e: ExprRef)
        ensures
            *e == Expr::Unary(UnaryExpr { token, expr }),
    {
        Rc::new(Expr::Unary(UnaryExpr { expr, token }))
    }

    pub fn expr(&self) -> (r: &ExprRef)
        ensures
            *r == self.expr,
    {
        &self.expr
    }

    pub fn token(&self) -> (t: &Token)
        ensures
            *t == self.token,
    {
        &self.token
    }
}

impl LiteralExpr {
    /// Builds a literal node.
    pub fn create(token: Token) -> (e: ExprRef)
        ensures
            *e == Expr::Literal(LiteralExpr { token }),
    {
        Rc::new(Expr::Literal(LiteralExpr { token }))
    }

    pub fn token(&self) -> (t: &Token)
        ensures
            *t == self.token,
    {
        &self.token
    }
}

impl GroupExpr {
    /// Builds a grouping node.
    pub fn create(expr: ExprRef) -> (e: ExprRef)
        ensures
            *e == Expr::Group(GroupExpr { expr }),
    {
        Rc::new(Expr::Group(GroupExpr { expr }))
    }

    pub fn expr(&self) -> (r: &ExprRef)
        ensures
            *r == self.expr,
    {
        &self.expr
    }
}

impl AssignExpr {
    /// Builds an assignment node.
    pub fn create(variable: Token, expr: ExprRef) -> (e: ExprRef)
        ensures
            *e == Expr::Assign(AssignExpr { variable, expr }),
    {
        Rc::new(Expr::Assign(AssignExpr { variable, expr }))
    }

    pub fn variable(&self) -> (t: &Token)
        ensures
            *t == self.variable,
    {
        &self.variable
    }

    pub fn expr(&self) -> (r: &ExprRef)
        ensures
            *r == self.expr,
    {
        &self.expr
    }
}

impl ExprStmt {
    /// Builds an expression statement node.
    pub fn create(expr: ExprRef) -> (s: StmtRef)
        ensures
            *s == Stmt::Expr(ExprStmt { expr }),
    {
        Rc::new(Stmt::Expr(ExprStmt { expr }))
    }

    pub fn expr(&self) -> (r: &ExprRef)
        ensures
            *r == self.expr,
    {
        &self.expr
    }
}

impl PrintStmt {
    /// Builds a print statement node.
    pub fn create(expr: ExprRef) -> (s: StmtRef)
        ensures
            *s == Stmt::Print(PrintStmt { expr }),
    {
        Rc::new(Stmt::Print(PrintStmt { expr }))
    }

    pub fn expr(&self) -> (r: &ExprRef)
        ensures
            *r == self.expr,
    {
        &self.expr
    }
}

impl VarDecl {
    /// Builds a variable declaration node.
    pub fn create(variable: Token, expr: Option<ExprRef>) -> (s: StmtRef)
        ensures
            *s == Stmt::Var(VarDecl { variable, expr }),
    {
        Rc::new(Stmt::Var(VarDecl { variable, expr }))
    }

    pub fn expr(&self) -> (r: Option<&ExprRef>)
        ensures
            match r {
                Some(e) => self.expr matches Some(x) && *e == x,
                None => self.expr is None,
            },
    {
        match &self.expr {
            Some(e) => Some(e),
            None => None,
        }
    }

    pub fn name(&self) -> (t: &Token)
        ensures
            *t == self.variable,
    {
        &self.variable
    }
}

impl Program {
    /// Builds a program node from its top-level declarations.
    pub fn create(stmts: Vec<StmtRef>) -> (s: StmtRef)
        ensures
            *s == Stmt::Program(Program { decs: stmts }),
    {
        Rc::new(Stmt::Program(Program { decs: stmts }))
    }

    pub fn decs(&self) -> (r: &Vec<StmtRef>)
        ensures
            *r == self.decs,
    {
        &self.decs
    }
}

impl Block {
    /// Builds a block node.
    pub fn create(decs: Vec<StmtRef>) -> (s: StmtRef)
        ensures
            *s == Stmt::Block(Block { decs }),
    {
        Rc::new(Stmt::Block(Block { decs }))
    }

    pub fn decs(&self) -> (r: &Vec<StmtRef>)
        ensures
            *r == self.decs,
    {
        &self.decs
    }
}

impl IfStmt {
    /// Builds a conditional node.
    pub fn create(expr: ExprRef, stmt: StmtRef, elstmt: Option<StmtRef>) -> (s: StmtRef)
        ensures
            *s == Stmt::If(IfStmt { expr, stmt, elstmt }),
    {
        Rc::new(Stmt::If(IfStmt { expr, stmt, elstmt }))
    }

    pub fn expr(&self) -> (r: &ExprRef)
        ensures
            *r == self.expr,
    {
        &self.expr
    }

    pub fn stmt(&self) -> (r: &StmtRef)
        ensures
            *r == self.stmt,
    {
        &self.stmt
    }

    pub fn elstmt(&self) -> (r: Option<&StmtRef>)
        ensures
            match r {
                Some(e) => self.elstmt matches Some(x) && *e == x,
                None => self.elstmt is None,
            },
    {
        match &self.elstmt {
            Some(e) => Some(e),
            None => None,
        }
    }
}

impl WhileStmt {
    /// Builds a while-loop node.
    pub fn create(expr: ExprRef, stmt: StmtRef) -> (s: StmtRef)
        ensures
            *s == Stmt::While(WhileStmt { expr, stmt }),
    {
        Rc::new(Stmt::While(WhileStmt { expr, stmt }))
    }

    pub fn expr(&self) -> (r: &ExprRef)
        ensures
            *r == self.expr,
    {
        &self.expr
    }

    pub fn stmt(&self) -> (r: &StmtRef)
        ensures
            *r == self.stmt,
    {
        &self.stmt
    }
}

impl BreakStmt {
    /// Builds a break node.
    pub fn create(token: Token) -> (s: StmtRef)
        ensures
            *s == Stmt::Break(BreakStmt { token }),
    {
        Rc::new(Stmt::Break(BreakStmt { token }))
    }

    pub fn token(&self) -> (t: &Token)
        ensures
            *t == self.token,
    {
        &self.token
    }
}

impl ReturnStmt {
    /// Builds a return node.
    pub fn create(token: Token, expr: Option<ExprRef>) -> (s: StmtRef)
        ensures
            *s == Stmt::Return(ReturnStmt { token, expr }),
    {
        Rc::new(Stmt::Return(ReturnStmt { token, expr }))
    }

    pub fn token(&self) -> (t: &Token)
        ensures
            *t == self.token,
    {
        &self.token
    }

    pub fn expr(&self) -> (r: Option<&ExprRef>)
        ensures
            match r {
                Some(e) => self.expr matches Some(x) && *e == x,
                None => self.expr is None,
            },
    {
        match &self.expr {
            Some(e) => Some(e),
            None => None,
        }
    }
}

impl FunCall {
    /// Builds a call node.
    pub fn create(callee: ExprRef, args: Vec<ExprRef>, line: u64) -> (e: ExprRef)
        ensures
            *e == Expr::Call(FunCall { callee, args, line }),
    {
        Rc::new(Expr::Call(FunCall { callee, args, line }))
    }

    pub fn callee(&self) -> (r: &ExprRef)
        ensures
            *r == self.callee,
    {
        &self.callee
    }

    pub fn args(&self) -> (r: &Vec<ExprRef>)
        ensures
            *r == self.args,
    {
        &self.args
    }

    pub fn line(&self) -> (l: u64)
        ensures
            l == self.line,
    {
        self.line
    }
}

impl FunDecl {
    /// Builds a named function declaration node.
    pub fn create(name: Token, args: Vec<Token>, block: StmtRef) -> (s: StmtRef)
        ensures
            *s == Stmt::Fun(FunDecl { name, params: args, block }),
    {
        Rc::new(Stmt::Fun(FunDecl { name, params: args, block }))
    }

    pub fn name(&self) -> (t: &Token)
        ensures
            *t == self.name,
    {
        &self.name
    }

    pub fn params(&self) -> (r: &Vec<Token>)
        ensures
            *r == self.params,
    {
        &self.params
    }

    pub fn block(&self) -> (r: &StmtRef)
        ensures
            *r == self.block,
    {
        &self.block
    }
}

impl FunDef {
    /// Builds an anonymous function expression node.
    pub fn create(args: Vec<Token>, block: StmtRef) -> (e: ExprRef)
        ensures
            *e == Expr::Lambda(FunDef { params: args, block }),
    {
        Rc::new(Expr::Lambda(FunDef { params: args, block }))
    }

    pub fn params(&self) -> (r: &Vec<Token>)
        ensures
            *r == self.params,
    {
        &self.params
    }

    pub fn block(&self) -> (r: &StmtRef)
        ensures
            *r == self.block,
    {
        &self.block
    }
}

impl Ast {
    /// Wraps a root node as a program tree.
    pub fn create(root: StmtRef) -> (a: Ast)
        ensures
            a.root == root,
    {
        Ast { root }
    }

    pub fn root(&self) -> (r: &StmtRef)
        ensures
            *r == self.root,
    {
        &self.root
    }
}

impl AstNode for BinaryExpr {
    open spec fn spec_kind(&self) -> AstNodeKind {
        AstNodeKind::BinaryExpr
    }

    fn kind(&self) -> (k: AstNodeKind) {
        AstNodeKind::BinaryExpr
    }
}

impl AstNode for UnaryExpr {
    open spec fn spec_kind(&self) -> AstNodeKind {
        AstNodeKind::UnaryExpr
    }

    fn kind(&self) -> (k: AstNodeKind) {
        AstNodeKind::UnaryExpr
    }
}

impl AstNode for GroupExpr {
    open spec fn spec_kind(&self) -> AstNodeKind {
        AstNodeKind::GroupExpr
    }

    fn kind(&self) -> (k: AstNodeKind) {
        AstNodeKind::GroupExpr
    }
}

impl AstNode for LiteralExpr {
    open spec fn spec_kind(&self) -> AstNodeKind {
        AstNodeKind::LiteralExpr(self.token)
    }

    fn kind(&self) -> (k: AstNodeKind) {
        AstNodeKind::LiteralExpr(self.token.duplicate())
    }
}

impl AstNode for AssignExpr {
    open spec fn spec_kind(&self) -> AstNodeKind {
        AstNodeKind::AssignExpr
    }

    fn kind(&self) -> (k: AstNodeKind) {
        AstNodeKind::AssignExpr
    }
}

impl AstNode for ExprStmt {
    open spec fn spec_kind(&self) -> AstNodeKind {
        AstNodeKind::ExprStmt
    }

    fn kind(&self) -> (k: AstNodeKind) {
        AstNodeKind::ExprStmt
    }
}

impl AstNode for PrintStmt {
    open spec fn spec_kind(&self) -> AstNodeKind {
        AstNodeKind::PrintStmt
    }

    fn kind(&self) -> (k: AstNodeKind) {
        AstNodeKind::PrintStmt
    }
}

impl AstNode for VarDecl {
    open spec fn spec_kind(&self) -> AstNodeKind {
        AstNodeKind::VarDecl
    }

    fn kind(&self) -> (k: AstNodeKind) {
        AstNodeKind::VarDecl
    }
}

impl AstNode for Block {
    open spec fn spec_kind(&self) -> AstNodeKind {
        AstNodeKind::Block
    }

    fn kind(&self) -> (k: AstNodeKind) {
        AstNodeKind::Block
    }
}

impl AstNode for Program {
    open spec fn spec_kind(&self) -> AstNodeKind {
        AstNodeKind::Program
    }

    fn kind(&self) -> (k: AstNodeKind) {
        AstNodeKind::Program
    }
}

impl AstNode for IfStmt {
    open spec fn spec_kind(&self) -> AstNodeKind {
        AstNodeKind::IfStmt
    }

    fn kind(&self) -> (k: AstNodeKind) {
        AstNodeKind::IfStmt
    }
}

impl AstNode for WhileStmt {
    open spec fn spec_kind(&self) -> AstNodeKind {
        AstNodeKind::WhileStmt
    }

    fn kind(&self) -> (k: AstNodeKind) {
        AstNodeKind::WhileStmt
    }
}

impl AstNode for BreakStmt {
    open spec fn spec_kind(&self) -> AstNodeKind {
        AstNodeKind::BreakStmt
    }

    fn kind(&self) -> (k: AstNodeKind) {
        AstNodeKind::BreakStmt
    }
}

impl AstNode for ReturnStmt {
    open spec fn spec_kind(&self) -> AstNodeKind {
        AstNodeKind::ReturnStmt
    }

    fn kind(&self) -> (k: AstNodeKind) {
        AstNodeKind::ReturnStmt
    }
}

impl AstNode for FunCall {
    open spec fn spec_kind(&self) -> AstNodeKind {
        AstNodeKind::FunCall
    }

    fn kind(&self) -> (k: AstNodeKind) {
        AstNodeKind::FunCall
    }
}

impl AstNode for FunDecl {
    open spec fn spec_kind(&self) -> AstNodeKind {
        AstNodeKind::FunDecl
    }

    fn kind(&self) -> (k: AstNodeKind) {
        AstNodeKind::FunDecl
    }
}

impl AstNode for FunDef {
    open spec fn spec_kind(&self) -> AstNodeKind {
        AstNodeKind::FunDecl
    }

    fn kind(&self) -> (k: AstNodeKind) {
        AstNodeKind::FunDecl
    }
}

/// Relies on `Rc::clone`: the clone is the same shared statement node.
#[verifier::external_body]
pub fn share_stmt(s: &StmtRef) -> (r: StmtRef)
    ensures
        r == *s,
{
    Rc::clone(s)
}

} // verus!
