//! Runtime values and their operator semantics.
//!
//! A value is a number, a string, a boolean, a function, or nil.  Numbers
//! are 64-bit signed integers with wrapping arithmetic.  Equality is
//! structural per variant with no coercion between variants; functions are
//! equal when they are the same function object.  The operator semantics
//! here are pure: the evaluation engine applies them to already-computed
//! operand values.

use vstd::prelude::*;

use crate::diag::ErrKind;
use crate::numtext::i64_text;
use crate::numtext::i64_to_string;
use crate::token::TokenKind;
use vstd::string::StringExecFns;

verus! {

/// A runtime value.  `Function` carries the index of a function object in
/// the evaluation engine's function table.
pub enum Value {
    Number(i64),
    String(String),
    Boolean(bool),
    Function(usize),
    Nil,
}

/// The mathematical model of a runtime value.
pub enum Val {
    Num(i64),
    Str(Seq<char>),
    Bool(bool),
    Fun(int),
    Nil,
}

impl View for Value {
    type V = Val;

    open spec fn view(&self) -> Val {
        match self {
            Value::Number(n) => Val::Num(*n),
            Value::String(s) => Val::Str(s@),
            Value::Boolean(b) => Val::Bool(*b),
            Value::Function(f) => Val::Fun(*f as int),
            Value::Nil => Val::Nil,
        }
    }
}

/// Truthiness: only nil and false are falsy; every number (including zero)
/// and every string (including the empty string) is truthy.
pub open spec fn truthy(v: Val) -> bool {
    match v {
        Val::Nil => false,
        Val::Bool(b) => b,
        _ => true,
    }
}

/// Value equality: structural per variant, with no coercion between
/// variants.  Functions are equal exactly when they are the same function
/// object in the function table.
pub open spec fn val_eq(a: Val, b: Val) -> bool {
    match (a, b) {
        (Val::Num(x), Val::Num(y)) => x == y,
        (Val::Str(x), Val::Str(y)) => x == y,
        (Val::Bool(x), Val::Bool(y)) => x == y,
        (Val::Fun(x), Val::Fun(y)) => x == y,
        (Val::Nil, Val::Nil) => true,
        _ => false,
    }
}

/// The display form of a value, as written by `print` and by the logging
/// native function.
pub open spec fn display_text(v: Val) -> Seq<char> {
    match v {
        Val::Num(n) => i64_text(n),
        Val::Str(s) => s,
        Val::Bool(b) => if b {
            "true"@
        } else {
            "false"@
        },
        Val::Fun(_) => "<fun>"@,
        Val::Nil => "NIL"@,
    }
}

/// What a unary operator yields on an operand value: `!` negates
/// truthiness; `-` requires a number; anything else is a type error.
pub open spec fn sp_unary_op(op: TokenKind, v: Val) -> Result<Val, ErrKind> {
    if op == TokenKind::Bang {
        Ok(Val::Bool(!truthy(v)))
    } else if op == TokenKind::Minus {
        match v {
            Val::Num(n) => Ok(Val::Num((0 as i64).wrapping_sub(n))),
            _ => Err(ErrKind::RuntimeType),
        }
    } else {
        Err(ErrKind::RuntimeType)
    }
}

/// What a binary operator yields on two operand values.  Equality compares
/// any two values; `+` adds numbers or concatenates strings; the remaining
/// arithmetic and comparison operators require two numbers.  Division by
/// zero is its own error kind; number arithmetic wraps around.
pub open spec fn sp_binary_op(op: TokenKind, a: Val, b: Val) -> Result<Val, ErrKind> {
    match op {
        TokenKind::EqualEqual => Ok(Val::Bool(val_eq(a, b))),
        TokenKind::BangEqual => Ok(Val::Bool(!val_eq(a, b))),
        TokenKind::Plus => match (a, b) {
            (Val::Num(x), Val::Num(y)) => Ok(Val::Num(x.wrapping_add(y))),
            (Val::Str(x), Val::Str(y)) => Ok(Val::Str(x + y)),
            _ => Err(ErrKind::RuntimeType),
        },
        TokenKind::Minus => match (a, b) {
            (Val::Num(x), Val::Num(y)) => Ok(Val::Num(x.wrapping_sub(y))),
            _ => Err(ErrKind::RuntimeType),
        },
        TokenKind::Star => match (a, b) {
            (Val::Num(x), Val::Num(y)) => Ok(Val::Num(x.wrapping_mul(y))),
            _ => Err(ErrKind::RuntimeType),
        },
        TokenKind::Slash => match (a, b) {
            (Val::Num(x), Val::Num(y)) => if y == 0 {
                Err(ErrKind::DivisionByZero)
            } else {
                match x.checked_div(y) {
                    Some(q) => Ok(Val::Num(q)),
                    None => Ok(Val::Num(i64::MIN)),
                }
            },
            _ => Err(ErrKind::RuntimeType),
        },
        TokenKind::Greater => match (a, b) {
            (Val::Num(x), Val::Num(y)) => Ok(Val::Bool(x > y)),
            _ => Err(ErrKind::RuntimeType),
        },
        TokenKind::GreaterEqual => match (a, b) {
            (Val::Num(x), Val::Num(y)) => Ok(Val::Bool(x >= y)),
            _ => Err(ErrKind::RuntimeType),
        },
        TokenKind::Less => match (a, b) {
            (Val::Num(x), Val::Num(y)) => Ok(Val::Bool(x < y)),
            _ => Err(ErrKind::RuntimeType),
        },
        TokenKind::LessEqual => match (a, b) {
            (Val::Num(x), Val::Num(y)) => Ok(Val::Bool(x <= y)),
            _ => Err(ErrKind::RuntimeType),
        },
        _ => Err(ErrKind::RuntimeType),
    }
}

impl Value {
    /// Truthiness of this value.
    pub fn truth(&self) -> (r: bool)
        ensures
            r == truthy(self@),
    {
        match self {
            Value::Nil => false,
            Value::Boolean(b) => *b,
            _ => true,
        }
    }
}

/// Compares two values for equality, with no coercion between variants.
pub fn value_eq(a: &Value, b: &Value) -> (r: bool)
    ensures
        r == val_eq(a@, b@),
{
    match (a, b) {
        (Value::Number(x), Value::Number(y)) => *x == *y,
        (Value::String(x), Value::String(y)) => *x == *y,
        (Value::Boolean(x), Value::Boolean(y)) => *x == *y,
        (Value::Function(x), Value::Function(y)) => *x == *y,
        (Value::Nil, Value::Nil) => true,
        _ => false,
    }
}

/// Applies a unary operator to an operand value.
pub fn apply_unary_op(op: TokenKind, v: &Value) -> (r: Result<Value, ErrKind>)
    ensures
        match (r, sp_unary_op(op, v@)) {
            (Ok(rv), Ok(sv)) => rv@ == sv,
            (Err(re), Err(se)) => re == se,
            _ => false,
        },
{
    if op == TokenKind::Bang {
        Ok(Value::Boolean(!v.truth()))
    } else if op == TokenKind::Minus {
        match v {
            Value::Number(n) => Ok(Value::Number((0 as i64).wrapping_sub(*n))),
            _ => Err(ErrKind::RuntimeType),
        }
    } else {
        Err(ErrKind::RuntimeType)
    }
}

/// Applies a binary operator to two operand values.
pub fn apply_binary_op(op: TokenKind, a: &Value, b: &Value) -> (r: Result<Value, ErrKind>)
    ensures
        match (r, sp_binary_op(op, a@, b@)) {
            (Ok(rv), Ok(sv)) => rv@ == sv,
            (Err(re), Err(se)) => re == se,
            _ => false,
        },
{
    match op {
        TokenKind::EqualEqual => Ok(Value::Boolean(value_eq(a, b))),
        TokenKind::BangEqual => Ok(Value::Boolean(!value_eq(a, b))),
        TokenKind::Plus => match (a, b) {
            (Value::Number(x), Value::Number(y)) => Ok(Value::Number(x.wrapping_add(*y))),
            (Value::String(x), Value::String(y)) => Ok(
                Value::String(x.clone().concat(y.as_str())),
            ),
            _ => Err(ErrKind::RuntimeType),
        },
        TokenKind::Minus => match (a, b) {
            (Value::Number(x), Value::Number(y)) => Ok(Value::Number(x.wrapping_sub(*y))),
            _ => Err(ErrKind::RuntimeType),
        },
        TokenKind::Star => match (a, b) {
            (Value::Number(x), Value::Number(y)) => Ok(Value::Number(x.wrapping_mul(*y))),
            _ => Err(ErrKind::RuntimeType),
        },
        TokenKind::Slash => match (a, b) {
            (Value::Number(x), Value::Number(y)) => if *y == 0 {
                Err(ErrKind::DivisionByZero)
            } else {
                match x.checked_div(*y) {
                    Some(q) => Ok(Value::Number(q)),
                    None => Ok(Value::Number(i64::MIN)),
                }
            },
            _ => Err(ErrKind::RuntimeType),
        },
        TokenKind::Greater => match (a, b) {
            (Value::Number(x), Value::Number(y)) => Ok(Value::Boolean(*x > *y)),
            _ => Err(ErrKind::RuntimeType),
        },
        TokenKind::GreaterEqual => match (a, b) {
            (Value::Number(x), Value::Number(y)) => Ok(Value::Boolean(*x >= *y)),
            _ => Err(ErrKind::RuntimeType),
        },
        TokenKind::Less => match (a, b) {
            (Value::Number(x), Value::Number(y)) => Ok(Value::Boolean(*x < *y)),
            _ => Err(ErrKind::RuntimeType),
        },
        TokenKind::LessEqual => match (a, b) {
            (Value::Number(x), Value::Number(y)) => Ok(Value::Boolean(*x <= *y)),
            _ => Err(ErrKind::RuntimeType),
        },
        _ => Err(ErrKind::RuntimeType),
    }
}

/// A copy of a value, equal to the original.  Values are always passed by
/// value; this is the copy a binding hands out.
pub fn value_dup(v: &Value) -> (r: Value)
    ensures
        r == *v,
{
    match v {
        Value::Number(n) => Value::Number(*n),
        Value::String(s) => Value::String(s.clone()),
        Value::Boolean(b) => Value::Boolean(*b),
        Value::Function(f) => Value::Function(*f),
        Value::Nil => Value::Nil,
    }
}

/// Renders a value in its display form.
pub fn display_value(v: &Value) -> (s: String)
    ensures
        s@ == display_text(v@),
{
    match v {
        Value::Number(n) => i64_to_string(*n),
        Value::String(s) => s.clone(),
        Value::Boolean(b) => if *b {
            String::from_str("true")
        } else {
            String::from_str("false")
        },
        Value::Function(_) => String::from_str("<fun>"),
        Value::Nil => String::from_str("NIL"),
    }
}

} // verus!
