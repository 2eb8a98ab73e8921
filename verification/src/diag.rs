//! Runtime diagnostics.
//!
//! Every runtime failure is recorded once, at the line of the offending
//! token, in the evaluation engine's diagnostic log, and then propagates as
//! a structured error that aborts everything enclosing it.  The log entry
//! carries the line and a message; the error value carries the kind and the
//! line, so callers can tell failures apart.

use vstd::prelude::*;

verus! {

/// The kind of a runtime failure.
#[derive(Clone, Copy, PartialEq, Eq, Structural, Debug)]
pub enum ErrKind {
    /// A numeric literal whose text is not valid numeric text.
    NumberFormat,
    /// An operand of the wrong type in a unary or binary operation.
    RuntimeType,
    /// A lookup or assignment of a name with no binding in any scope.
    UndefinedVariable,
    /// A call whose callee is not a function value.
    UndefinedFunction,
    /// A call whose argument count differs from the parameter count.
    ArityMismatch,
    /// A division whose right operand is zero.
    DivisionByZero,
}

/// A structured runtime error: its kind and the line it was reported at.
#[derive(Clone, Copy, PartialEq, Eq, Structural, Debug)]
pub struct RunError {
    pub kind: ErrKind,
    pub line: u64,
}

/// Why evaluation stopped early: a reported runtime error, or exhaustion of
/// the evaluation budget that bounds recursion and loops.
#[derive(Clone, Copy, PartialEq, Eq, Structural, Debug)]
pub enum Halt {
    Fault(RunError),
    Exhausted,
}

/// One entry of the diagnostic log: the source line and the message.
pub struct Diag {
    pub line: u64,
    pub message: String,
}

/// The mathematical model of a log entry.
pub struct DiagModel {
    pub line: u64,
    pub message: Seq<char>,
}

impl View for Diag {
    type V = DiagModel;

    open spec fn view(&self) -> DiagModel {
        DiagModel { line: self.line, message: self.message@ }
    }
}

} // verus!
