//! Evaluation core of a small dynamically typed scripting language.
//!
//! The crate walks an already-parsed program tree: it computes expression
//! values with lexical scoping and closures, threads `break` / `return`
//! control signals through statement sequencing, and records every runtime
//! error, together with the line of the offending token, in a diagnostic log.
//! The semantics are given by a recursive specification interpreter, and the
//! executable evaluator is proved to agree with it step for step.

pub mod token;

pub mod numtext;

pub mod value;

pub mod diag;

pub mod ast;

pub mod function;

pub mod interpret;

pub mod laws;

pub mod render;
