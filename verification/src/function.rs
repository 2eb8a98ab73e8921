//! Function objects and the native-function registry.
//!
//! A function is an ordered parameter list, an implementation (a host
//! native or a user-defined body subtree), and an optional captured
//! environment, held as an index into the engine's scope table.  The
//! registry installs exactly two natives into the global scope at startup:
//! a logging function and a clock.

use vstd::prelude::*;
use vstd::string::StringExecFns;

use crate::ast::Stmt;
use crate::ast::StmtRef;
use crate::ast::share_stmt;
use crate::value::Value;

verus! {

/// The host-provided native functions.
#[derive(Clone, Copy, PartialEq, Eq, Structural, Debug)]
pub enum NativeFn {
    /// Writes the display form of each argument, space-separated, as one
    /// output line, and returns nil.
    Log,
    /// Returns the engine's clock reading as a number, ignoring arguments.
    /// The engine clock approximates wall-clock milliseconds since the
    /// epoch: it is seeded from the host clock when the engine starts and
    /// again at each run, and advances by one per reading in between.
    Clock,
}

/// How a function is implemented: by the host, or by a user-defined body
/// subtree shared with the declaration that produced it.
pub enum Implementation {
    NativeImpl(NativeFn),
    LoxImpl(StmtRef),
}

/// The mathematical model of an implementation.
pub enum CodeModel {
    Native(NativeFn),
    User(StmtRef),
}

impl View for Implementation {
    type V = CodeModel;

    open spec fn view(&self) -> CodeModel {
        match *self {
            Implementation::NativeImpl(n) => CodeModel::Native(n),
            Implementation::LoxImpl(body) => CodeModel::User(body),
        }
    }
}

/// A callable: its parameter names, its implementation, and the scope it
/// captured at declaration time (absent for natives).
pub struct Function {
    pub params: Vec<String>,
    pub code: Implementation,
    pub closure: Option<usize>,
}

/// The mathematical model of a function object.
#[verifier::ext_equal]
pub struct FunModel {
    pub params: Seq<Seq<char>>,
    pub code: CodeModel,
    pub closure: Option<int>,
}

impl View for Function {
    type V = FunModel;

    open spec fn view(&self) -> FunModel {
        FunModel {
            params: self.params@.map_values(|s: String| s@),
            code: self.code@,
            closure: match self.closure {
                Some(c) => Some(c as int),
                None => None,
            },
        }
    }
}

impl Function {
    /// Assembles a function object from its parts.
    pub fn create(code: Implementation, params: Vec<String>, closure: Option<usize>) -> (f:
        Function)
        ensures
            f == (Function { code, params, closure }),
    {
        Function { code, params, closure }
    }

    /// The function's implementation.
    pub fn code(&self) -> (c: &Implementation)
        ensures
            *c == self.code,
    {
        &self.code
    }

    /// The function's parameter names, in order.
    pub fn params(&self) -> (p: &Vec<String>)
        ensures
            *p == self.params,
    {
        &self.params
    }

    /// The scope captured at declaration time, if any.
    pub fn closure(&self) -> (c: Option<usize>)
        ensures
            c == self.closure,
    {
        self.closure
    }

    /// A copy of this function object with the same model: the parameter
    /// names, the shared implementation, and the captured scope.
    pub fn duplicate(&self) -> (f: Function)
        ensures
            f@ == self@,
            f.closure == self.closure,
    {
        let code = match &self.code {
            Implementation::NativeImpl(n) => Implementation::NativeImpl(*n),
            Implementation::LoxImpl(body) => Implementation::LoxImpl(share_stmt(body)),
        };
        let params = clone_params(&self.params);
        proof {
            assert(params@.map_values(|s: String| s@) =~= self.params@.map_values(
                |s: String| s@,
            ));
        }
        Function { params, code, closure: self.closure }
    }
}

/// A copy of a parameter-name list, equal to the original.
pub fn clone_params(params: &Vec<String>) -> (r: Vec<String>)
    ensures
        r@ == params@,
{
    let mut r: Vec<String> = Vec::new();
    let mut i: usize = 0;
    while i < params.len()
        invariant
            i <= params@.len(),
            r@ == params@.subrange(0, i as int),
        decreases params@.len() - i,
    {
        r.push(params[i].clone());
        proof {
            assert(r@ =~= params@.subrange(0, i + 1));
        }
        i = i + 1;
    }
    proof {
        assert(params@.subrange(0, params@.len() as int) =~= params@);
    }
    r
}

/// The fixed table of native functions installed into the global scope at
/// startup: the logging function, then the clock.
pub fn all_natives() -> (r: Vec<(String, Function)>)
    ensures
        r@.len() == 2,
        r@[0].0@ == "log"@,
        r@[0].1@.code == CodeModel::Native(NativeFn::Log),
        r@[0].1@.params =~= seq![""@],
        r@[0].1@.closure is None,
        r@[1].0@ == "clock"@,
        r@[1].1@.code == CodeModel::Native(NativeFn::Clock),
        r@[1].1@.params =~= Seq::<Seq<char>>::empty(),
        r@[1].1@.closure is None,
{
    let mut all: Vec<(String, Function)> = Vec::new();
    let mut log_params: Vec<String> = Vec::new();
    log_params.push(String::from_str(""));
    let log_fun = Function::create(Implementation::NativeImpl(NativeFn::Log), log_params, None);
    all.push((String::from_str("log"), log_fun));
    let clock_fun = Function::create(Implementation::NativeImpl(NativeFn::Clock), Vec::new(), None);
    all.push((String::from_str("clock"), clock_fun));
    all
}

} // verus!
