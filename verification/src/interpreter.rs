//! The tree-walking interpreter.
//!
//! Expressions are evaluated against a [`Scope`]; top-level statements are
//! evaluated for effect only. A function call copies the caller's scope at
//! call time (there is no lexical closure capture), binds the parameters
//! over the copy, and evaluates the body there; the copy is discarded when
//! the call returns. Built-in calls are dispatched through the
//! [`BuiltinRegistry`] trait, whose behaviour this crate does not model.
//!
//! Every evaluation step spends one unit of fuel, so evaluation is total:
//! a program that would run forever (unbounded recursion) is cut off with
//! [`RuntimeError::StepLimit`] once the budget of [`EVAL_FUEL`] steps is
//! spent. The executable interpreter is proved equivalent to the fuelled
//! big-step specification evaluator [`spec_eval`] in every other respect.

use crate::parser::clone_exprs;
use crate::parser::exprs_view;
use crate::parser::params_view;
use crate::parser::Expr;
use crate::parser::ExprView;
use crate::parser::Operator;
use crate::scope::Scope;
use crate::scope::ScopeView;
use crate::token::Token;
use crate::token::TokenView;
use crate::value::clone_value;
use crate::value::values_view;
use crate::value::vtparams_view;
use crate::value::BuiltinFn;
use crate::value::FnType;
use crate::value::FnTypeView;
use crate::value::UserFn;
use crate::value::UserFnView;
use crate::value::Value;
use crate::value::ValueType;
use crate::value::ValueView;
use vstd::prelude::*;
use vstd::string::StringExecFns;

verus! {

/// The step budget of one `run`: evaluation never exceeds this many steps.
pub const EVAL_FUEL: u64 = 0xffff_ffff_ffff_ffff;

/// Why an evaluation failed. Evaluation errors are fatal: they abort the
/// whole run at the point of failure.
#[derive(Debug, Clone, PartialEq)]
pub enum RuntimeError {
    /// A name was read before any binding of it.
    UndefinedVariable(String),
    /// A call named a function that no binding defines.
    UndefinedFunction(String),
    /// A call named a binding whose value is not callable.
    NotCallable(String),
    /// The operands of the operator had incompatible types.
    TypeMismatch(Operator),
    /// Integer division by zero.
    DivisionByZero,
    /// An arithmetic result fell outside the machine integer range.
    Overflow,
    /// A call supplied fewer arguments than the function declares.
    ArityMismatch { expected: usize, got: usize },
    /// A type annotation named no known type.
    UnknownType(String),
    /// The left side of an assignment was not a plain name.
    InvalidAssignTarget,
    /// A parameter's annotation was not a type token.
    InvalidAnnotation,
    /// A `return` statement outside any function body.
    ReturnOutsideFunction,
    /// The evaluation step budget was spent.
    StepLimit,
}

/// Specification-level model of a [`RuntimeError`].
pub enum RuntimeErrorView {
    UndefinedVariable(Seq<char>),
    UndefinedFunction(Seq<char>),
    NotCallable(Seq<char>),
    TypeMismatch(Operator),
    DivisionByZero,
    Overflow,
    ArityMismatch { expected: int, got: int },
    UnknownType(Seq<char>),
    InvalidAssignTarget,
    InvalidAnnotation,
    ReturnOutsideFunction,
    StepLimit,
}

impl View for RuntimeError {
    type V = RuntimeErrorView;

    open spec fn view(&self) -> RuntimeErrorView {
        match self {
            RuntimeError::UndefinedVariable(s) => RuntimeErrorView::UndefinedVariable(s@),
            RuntimeError::UndefinedFunction(s) => RuntimeErrorView::UndefinedFunction(s@),
            RuntimeError::NotCallable(s) => RuntimeErrorView::NotCallable(s@),
            RuntimeError::TypeMismatch(op) => RuntimeErrorView::TypeMismatch(*op),
            RuntimeError::DivisionByZero => RuntimeErrorView::DivisionByZero,
            RuntimeError::Overflow => RuntimeErrorView::Overflow,
            RuntimeError::ArityMismatch { expected, got } => RuntimeErrorView::ArityMismatch {
                expected: *expected as int,
                got: *got as int,
            },
            RuntimeError::UnknownType(s) => RuntimeErrorView::UnknownType(s@),
            RuntimeError::InvalidAssignTarget => RuntimeErrorView::InvalidAssignTarget,
            RuntimeError::InvalidAnnotation => RuntimeErrorView::InvalidAnnotation,
            RuntimeError::ReturnOutsideFunction => RuntimeErrorView::ReturnOutsideFunction,
            RuntimeError::StepLimit => RuntimeErrorView::StepLimit,
        }
    }
}

/// The external registry of built-in functions. It populates the initial
/// scope at interpreter construction and executes a built-in when the
/// interpreter delegates a call to it; nothing is assumed of either.
pub trait BuiltinRegistry {
    /// Inserts the built-in bindings into the initial scope.
    fn populate(&mut self, scope: &mut Scope);

    /// Executes the named built-in on the already-evaluated arguments, with
    /// the return type recorded at binding time.
    fn call_builtin(&mut self, name: &String, args: Vec<Value>, return_type: Value) -> Result<
        Value,
        RuntimeError,
    >;
}

/// A registry with no built-ins at all: it leaves the initial scope empty,
/// and every delegated call fails as an undefined function.
pub struct NoBuiltins;

impl BuiltinRegistry for NoBuiltins {
    fn populate(&mut self, _scope: &mut Scope) {
    }

    fn call_builtin(&mut self, name: &String, _args: Vec<Value>, _return_type: Value) -> Result<
        Value,
        RuntimeError,
    > {
        Err(RuntimeError::UndefinedFunction(name.clone()))
    }
}

/// Which [`ValueType`] a type name denotes, if any.
pub open spec fn spec_valuetype_of(s: Seq<char>) -> Option<ValueType> {
    if s == "bool"@ {
        Some(ValueType::Bool)
    } else if s == "int"@ {
        Some(ValueType::Int)
    } else if s == "string"@ {
        Some(ValueType::Str)
    } else if s == "_none"@ {
        Some(ValueType::Nothing)
    } else {
        None
    }
}

/// Resolves a type name into a [`ValueType`]; any other name is an
/// unknown-type error.
pub fn get_valuetype_from(name: &str) -> (r: Result<ValueType, RuntimeError>)
    ensures
        match spec_valuetype_of(name@) {
            Some(vt) => r == Ok::<ValueType, RuntimeError>(vt),
            None => r matches Err(e) && e@ == RuntimeErrorView::UnknownType(name@),
        },
{
    let t = name.to_owned();
    if t == "bool".to_owned() {
        Ok(ValueType::Bool)
    } else if t == "int".to_owned() {
        Ok(ValueType::Int)
    } else if t == "string".to_owned() {
        Ok(ValueType::Str)
    } else if t == "_none".to_owned() {
        Ok(ValueType::Nothing)
    } else {
        Err(RuntimeError::UnknownType(name.to_owned()))
    }
}

/// What a binary operator yields on two evaluated operands.
///
/// `Add` sums integers and concatenates strings; `Sub`, `Mul` and `Div`
/// work on integers only, with truncating division; `Eq` and `Neq` compare
/// two integers, two strings or two booleans. Every other pairing is a
/// type mismatch; division by zero and out-of-range results are their own
/// errors.
pub open spec fn spec_apply_binop(op: Operator, a: ValueView, b: ValueView) -> Result<
    ValueView,
    RuntimeErrorView,
> {
    match op {
        Operator::Add => match (a, b) {
            (ValueView::Int(x), ValueView::Int(y)) => match i64::checked_add(x, y) {
                Some(z) => Ok(ValueView::Int(z)),
                None => Err(RuntimeErrorView::Overflow),
            },
            (ValueView::Str(x), ValueView::Str(y)) => Ok(ValueView::Str(x + y)),
            _ => Err(RuntimeErrorView::TypeMismatch(Operator::Add)),
        },
        Operator::Sub => match (a, b) {
            (ValueView::Int(x), ValueView::Int(y)) => match i64::checked_sub(x, y) {
                Some(z) => Ok(ValueView::Int(z)),
                None => Err(RuntimeErrorView::Overflow),
            },
            _ => Err(RuntimeErrorView::TypeMismatch(Operator::Sub)),
        },
        Operator::Mul => match (a, b) {
            (ValueView::Int(x), ValueView::Int(y)) => match i64::checked_mul(x, y) {
                Some(z) => Ok(ValueView::Int(z)),
                None => Err(RuntimeErrorView::Overflow),
            },
            _ => Err(RuntimeErrorView::TypeMismatch(Operator::Mul)),
        },
        Operator::Div => match (a, b) {
            (ValueView::Int(x), ValueView::Int(y)) => if y == 0 {
                Err(RuntimeErrorView::DivisionByZero)
            } else {
                match i64::checked_div(x, y) {
                    Some(z) => Ok(ValueView::Int(z)),
                    None => Err(RuntimeErrorView::Overflow),
                }
            },
            _ => Err(RuntimeErrorView::TypeMismatch(Operator::Div)),
        },
        Operator::Eq => match (a, b) {
            (ValueView::Int(x), ValueView::Int(y)) => Ok(ValueView::Bool(x == y)),
            (ValueView::Str(x), ValueView::Str(y)) => Ok(ValueView::Bool(x == y)),
            (ValueView::Bool(x), ValueView::Bool(y)) => Ok(ValueView::Bool(x == y)),
            _ => Err(RuntimeErrorView::TypeMismatch(Operator::Eq)),
        },
        Operator::Neq => match (a, b) {
            (ValueView::Int(x), ValueView::Int(y)) => Ok(ValueView::Bool(x != y)),
            (ValueView::Str(x), ValueView::Str(y)) => Ok(ValueView::Bool(x != y)),
            (ValueView::Bool(x), ValueView::Bool(y)) => Ok(ValueView::Bool(x != y)),
            _ => Err(RuntimeErrorView::TypeMismatch(Operator::Neq)),
        },
        Operator::SetVal => Err(RuntimeErrorView::TypeMismatch(Operator::SetVal)),
    }
}

/// The outcome of evaluating one expression in the specification evaluator.
pub enum EvalStep {
    /// Normal completion: the value produced and the scope afterwards.
    Val(ValueView, ScopeView),
    /// A return signal travelling outward, with the scope afterwards.
    Ret(ValueView, ScopeView),
    /// A fatal evaluation error.
    Fault(RuntimeErrorView),
    /// The fuel ran out.
    NoFuel,
    /// Evaluation reached a built-in call: from here the outcome depends on
    /// the external registry and is not modelled.
    External,
}

/// The outcome of evaluating an argument list.
pub enum ArgsStep {
    Vals(Seq<ValueView>, ScopeView),
    Ret(ValueView, ScopeView),
    Fault(RuntimeErrorView),
    NoFuel,
    External,
}

/// The outcome of evaluating a function body.
pub enum BodyStep {
    /// The body ran to the end without a `return`.
    Done,
    /// A `return` statement ended the body with this value.
    Ret(ValueView),
    Fault(RuntimeErrorView),
    NoFuel,
    External,
}

/// The outcome of calling a named function.
pub enum CallStep {
    Val(ValueView),
    Fault(RuntimeErrorView),
    NoFuel,
    External,
}

/// The outcome of running a whole program.
pub enum RunStep {
    Done(ScopeView),
    Fault(RuntimeErrorView),
    NoFuel,
    External,
}

/// Resolves the type annotations of a declared parameter list, in order,
/// from index `i` on. Each annotation must be a type token naming a known
/// type.
pub open spec fn spec_resolve_params(params: Seq<(Seq<char>, ExprView)>, i: int) -> Result<
    Seq<(Seq<char>, ValueType)>,
    RuntimeErrorView,
>
    decreases params.len() - i,
{
    if i < 0 || i >= params.len() {
        Ok(Seq::<(Seq<char>, ValueType)>::empty())
    } else {
        match params[i].1 {
            ExprView::Token(TokenView::Type(t)) => match spec_valuetype_of(t) {
                Some(vt) => match spec_resolve_params(params, i + 1) {
                    Ok(rest) => Ok(seq![(params[i].0, vt)] + rest),
                    Err(e) => Err(e),
                },
                None => Err(RuntimeErrorView::UnknownType(t)),
            },
            _ => Err(RuntimeErrorView::InvalidAnnotation),
        }
    }
}

/// Binds the declared parameters, in order from index `i`, to the
/// corresponding evaluated arguments over the scope `m`.
pub open spec fn spec_bind_params(
    m: ScopeView,
    params: Seq<(Seq<char>, ValueType)>,
    vs: Seq<ValueView>,
    i: int,
) -> ScopeView
    decreases params.len() - i,
{
    if i < 0 || i >= params.len() {
        m
    } else {
        spec_bind_params(m.insert(params[i].0, vs[i]), params, vs, i + 1)
    }
}

/// The specification evaluator for one expression against a scope, with a
/// step budget. This is the meaning of the language that the executable
/// interpreter is proved to implement.
pub open spec fn spec_eval(e: ExprView, m: ScopeView, fuel: nat) -> EvalStep
    decreases fuel,
{
    if fuel == 0 {
        EvalStep::NoFuel
    } else {
        let f = (fuel - 1) as nat;
        match e {
            ExprView::Token(t) => match t {
                TokenView::Num(n) => EvalStep::Val(ValueView::Int(n), m),
                TokenView::Str(s) => EvalStep::Val(ValueView::Str(s), m),
                TokenView::Bool(b) => EvalStep::Val(ValueView::Bool(b), m),
                TokenView::Identifier(x) => if m.contains_key(x) {
                    EvalStep::Val(m[x], m)
                } else {
                    EvalStep::Fault(RuntimeErrorView::UndefinedVariable(x))
                },
                _ => EvalStep::Val(ValueView::Nothing, m),
            },
            ExprView::BinaryExpr { op, lhs, rhs } => if op is SetVal {
                match *lhs {
                    ExprView::Token(TokenView::Identifier(x)) => match spec_eval(*rhs, m, f) {
                        EvalStep::Val(v, m1) => EvalStep::Val(ValueView::Nothing, m1.insert(x, v)),
                        other => other,
                    },
                    _ => EvalStep::Fault(RuntimeErrorView::InvalidAssignTarget),
                }
            } else {
                match spec_eval(*lhs, m, f) {
                    EvalStep::Val(a, m1) => match spec_eval(*rhs, m1, f) {
                        EvalStep::Val(b, m2) => match spec_apply_binop(op, a, b) {
                            Ok(v) => EvalStep::Val(v, m2),
                            Err(er) => EvalStep::Fault(er),
                        },
                        other => other,
                    },
                    other => other,
                }
            },
            ExprView::FnCall { name, args } => match spec_eval_args(args, 0, m, f) {
                ArgsStep::Vals(vs, m1) => match spec_call_fn(name, vs, m1, f) {
                    CallStep::Val(v) => EvalStep::Val(v, m1),
                    CallStep::Fault(er) => EvalStep::Fault(er),
                    CallStep::NoFuel => EvalStep::NoFuel,
                    CallStep::External => EvalStep::External,
                },
                ArgsStep::Ret(v, m1) => EvalStep::Ret(v, m1),
                ArgsStep::Fault(er) => EvalStep::Fault(er),
                ArgsStep::NoFuel => EvalStep::NoFuel,
                ArgsStep::External => EvalStep::External,
            },
            ExprView::FnDef { name, args, body, return_type } => match spec_resolve_params(
                args,
                0,
            ) {
                Ok(params) => match spec_valuetype_of(return_type) {
                    Some(rt) => EvalStep::Val(
                        ValueView::Nothing,
                        m.insert(
                            name,
                            ValueView::Func(
                                FnTypeView::User(
                                    UserFnView { name, args: params, body, return_type: rt },
                                ),
                            ),
                        ),
                    ),
                    None => EvalStep::Fault(RuntimeErrorView::UnknownType(return_type)),
                },
                Err(er) => EvalStep::Fault(er),
            },
            ExprView::Return { inner } => match spec_eval(*inner, m, f) {
                EvalStep::Val(v, m1) => EvalStep::Ret(v, m1),
                other => other,
            },
        }
    }
}

/// The specification evaluator for an argument list, left to right from
/// index `i`, threading the scope through.
pub open spec fn spec_eval_args(args: Seq<ExprView>, i: int, m: ScopeView, fuel: nat) -> ArgsStep
    decreases fuel,
{
    if fuel == 0 {
        ArgsStep::NoFuel
    } else {
        let f = (fuel - 1) as nat;
        if i < 0 || i >= args.len() {
            ArgsStep::Vals(Seq::<ValueView>::empty(), m)
        } else {
            match spec_eval(args[i], m, f) {
                EvalStep::Val(v, m1) => match spec_eval_args(args, i + 1, m1, f) {
                    ArgsStep::Vals(rest, m2) => ArgsStep::Vals(seq![v] + rest, m2),
                    other => other,
                },
                EvalStep::Ret(v, m1) => ArgsStep::Ret(v, m1),
                EvalStep::Fault(er) => ArgsStep::Fault(er),
                EvalStep::NoFuel => ArgsStep::NoFuel,
                EvalStep::External => ArgsStep::External,
            }
        }
    }
}

/// The specification evaluator for a function body: statements in order
/// from index `i`; the first `return` ends the body.
pub open spec fn spec_eval_body(stmts: Seq<ExprView>, i: int, m: ScopeView, fuel: nat) -> BodyStep
    decreases fuel,
{
    if fuel == 0 {
        BodyStep::NoFuel
    } else {
        let f = (fuel - 1) as nat;
        if i < 0 || i >= stmts.len() {
            BodyStep::Done
        } else {
            match spec_eval(stmts[i], m, f) {
                EvalStep::Val(v, m1) => spec_eval_body(stmts, i + 1, m1, f),
                EvalStep::Ret(v, m1) => BodyStep::Ret(v),
                EvalStep::Fault(er) => BodyStep::Fault(er),
                EvalStep::NoFuel => BodyStep::NoFuel,
                EvalStep::External => BodyStep::External,
            }
        }
    }
}

/// The specification of calling the function bound to `name` on evaluated
/// arguments `vs` in scope `m`.
///
/// A built-in call is [`CallStep::External`]: its outcome belongs to the
/// registry. A user function must be given at least as many arguments as
/// it declares parameters; its body is evaluated against a copy of the
/// caller's scope at call time extended with the parameter bindings, so the
/// caller's own scope is never changed by the call.
pub open spec fn spec_call_fn(name: Seq<char>, vs: Seq<ValueView>, m: ScopeView, fuel: nat) -> CallStep
    decreases fuel,
{
    if fuel == 0 {
        CallStep::NoFuel
    } else {
        let f = (fuel - 1) as nat;
        if !m.contains_key(name) {
            CallStep::Fault(RuntimeErrorView::UndefinedFunction(name))
        } else {
            match m[name] {
                ValueView::Func(FnTypeView::Builtin(_)) => CallStep::External,
                ValueView::Func(FnTypeView::User(u)) => if vs.len() < u.args.len() {
                    CallStep::Fault(
                        RuntimeErrorView::ArityMismatch {
                            expected: u.args.len() as int,
                            got: vs.len() as int,
                        },
                    )
                } else {
                    match spec_eval_body(u.body, 0, spec_bind_params(m, u.args, vs, 0), f) {
                        BodyStep::Done => CallStep::Val(ValueView::Nothing),
                        BodyStep::Ret(v) => CallStep::Val(v),
                        BodyStep::Fault(er) => CallStep::Fault(er),
                        BodyStep::NoFuel => CallStep::NoFuel,
                        BodyStep::External => CallStep::External,
                    }
                },
                _ => CallStep::Fault(RuntimeErrorView::NotCallable(name)),
            }
        }
    }
}

/// The specification of running a program: top-level statements in order
/// from index `i`, each evaluated for effect with a fresh step budget; a
/// top-level `return` is a usage error.
pub open spec fn spec_run(stmts: Seq<ExprView>, i: int, m: ScopeView, fuel: nat) -> RunStep
    decreases stmts.len() - i,
{
    if i < 0 || i >= stmts.len() {
        RunStep::Done(m)
    } else {
        match spec_eval(stmts[i], m, fuel) {
            EvalStep::Val(v, m1) => spec_run(stmts, i + 1, m1, fuel),
            EvalStep::Ret(v, m1) => RunStep::Fault(RuntimeErrorView::ReturnOutsideFunction),
            EvalStep::Fault(er) => RunStep::Fault(er),
            EvalStep::NoFuel => RunStep::NoFuel,
            EvalStep::External => RunStep::External,
        }
    }
}

/// How the evaluation of one expression ended, when it did not fail:
/// either a normal value, or a `return` signal travelling to the enclosing
/// function-body loop.
#[derive(Debug, PartialEq)]
pub enum Flow {
    Val(Value),
    Ret(Value),
}

/// The outcome of evaluating an argument list: the evaluated values, or a
/// `return` signal from inside an argument expression.
enum ArgsFlow {
    Vals(Vec<Value>),
    Ret(Value),
}

/// Applies a binary operator to two evaluated operands.
fn apply_binop(op: Operator, a: Value, b: Value) -> (r: Result<Value, RuntimeError>)
    ensures
        match spec_apply_binop(op, a@, b@) {
            Ok(v) => r matches Ok(x) && x@ == v,
            Err(e) => r matches Err(x) && x@ == e,
        },
{
    match op {
        Operator::Add => match (a, b) {
            (Value::Int(x), Value::Int(y)) => match x.checked_add(y) {
                Some(z) => Ok(Value::Int(z)),
                None => Err(RuntimeError::Overflow),
            },
            (Value::Str(x), Value::Str(y)) => Ok(Value::Str(x.concat(y.as_str()))),
            _ => Err(RuntimeError::TypeMismatch(Operator::Add)),
        },
        Operator::Sub => match (a, b) {
            (Value::Int(x), Value::Int(y)) => match x.checked_sub(y) {
                Some(z) => Ok(Value::Int(z)),
                None => Err(RuntimeError::Overflow),
            },
            _ => Err(RuntimeError::TypeMismatch(Operator::Sub)),
        },
        Operator::Mul => match (a, b) {
            (Value::Int(x), Value::Int(y)) => match x.checked_mul(y) {
                Some(z) => Ok(Value::Int(z)),
                None => Err(RuntimeError::Overflow),
            },
            _ => Err(RuntimeError::TypeMismatch(Operator::Mul)),
        },
        Operator::Div => match (a, b) {
            (Value::Int(x), Value::Int(y)) => if y == 0 {
                Err(RuntimeError::DivisionByZero)
            } else {
                match x.checked_div(y) {
                    Some(z) => Ok(Value::Int(z)),
                    None => Err(RuntimeError::Overflow),
                }
            },
            _ => Err(RuntimeError::TypeMismatch(Operator::Div)),
        },
        Operator::Eq => match (a, b) {
            (Value::Int(x), Value::Int(y)) => Ok(Value::Bool(x == y)),
            (Value::Str(x), Value::Str(y)) => Ok(Value::Bool(x == y)),
            (Value::Bool(x), Value::Bool(y)) => Ok(Value::Bool(x == y)),
            _ => Err(RuntimeError::TypeMismatch(Operator::Eq)),
        },
        Operator::Neq => match (a, b) {
            (Value::Int(x), Value::Int(y)) => Ok(Value::Bool(x != y)),
            (Value::Str(x), Value::Str(y)) => Ok(Value::Bool(!(x == y))),
            (Value::Bool(x), Value::Bool(y)) => Ok(Value::Bool(x != y)),
            _ => Err(RuntimeError::TypeMismatch(Operator::Neq)),
        },
        Operator::SetVal => Err(RuntimeError::TypeMismatch(Operator::SetVal)),
    }
}

/// Resolves the type annotations of a parameter list, from index `k` on.
fn resolve_params(args: &Vec<(String, Expr)>, k: usize) -> (r: Result<
    Vec<(String, ValueType)>,
    RuntimeError,
>)
    ensures
        ({
            let s = spec_resolve_params(params_view(args@), k as int);
            &&& (r matches Ok(v) ==> (s matches Ok(sv) && sv == vtparams_view(v@)))
            &&& (r matches Err(e) ==> (s matches Err(se) && se == e@))
        }),
    decreases args@.len() - k,
{
    proof {
        crate::parser::lemma_params_view(args@);
    }
    if k >= args.len() {
        let out: Vec<(String, ValueType)> = Vec::new();
        proof {
            assert(vtparams_view(out@) =~= Seq::<(Seq<char>, ValueType)>::empty());
        }
        Ok(out)
    } else {
        let pair = &args[k];
        match &pair.1 {
            Expr::Token(tok) => match tok {
                Token::Type(t) => match get_valuetype_from(t.as_str()) {
                    Ok(vt) => match resolve_params(args, k + 1) {
                        Ok(rest) => {
                            let ghost rest0 = rest@;
                            let mut rest = rest;
                            let mut out: Vec<(String, ValueType)> = Vec::new();
                            out.push((pair.0.clone(), vt));
                            out.append(&mut rest);
                            proof {
                                assert(vtparams_view(out@) =~= seq![(pair.0@, vt)]
                                    + vtparams_view(rest0));
                            }
                            Ok(out)
                        },
                        Err(e) => Err(e),
                    },
                    Err(e) => Err(e),
                },
                _ => Err(RuntimeError::InvalidAnnotation),
            },
            _ => Err(RuntimeError::InvalidAnnotation),
        }
    }
}

/// Evaluates one expression against `scope`, spending one unit of fuel per
/// evaluation step. The result and the scope afterwards are exactly those
/// of the specification evaluator, except after a built-in call, whose
/// outcome belongs to the registry.
#[verifier::rlimit(100)]
pub fn interpret_expr<R: BuiltinRegistry>(
    expr: &Expr,
    scope: &mut Scope,
    registry: &mut R,
    fuel: u64,
) -> (r: Result<Flow, RuntimeError>)
    ensures
        ({
            let s = spec_eval(expr@, old(scope)@, fuel as nat);
            &&& (s matches EvalStep::Val(v, m) ==> (r matches Ok(fl) && fl matches Flow::Val(x)
                && x@ == v && final(scope)@ == m))
            &&& (s matches EvalStep::Ret(v, m) ==> (r matches Ok(fl) && fl matches Flow::Ret(x)
                && x@ == v && final(scope)@ == m))
            &&& (s matches EvalStep::Fault(e) ==> (r matches Err(er) && er@ == e))
            &&& (s is NoFuel ==> r == Err::<Flow, RuntimeError>(RuntimeError::StepLimit))
        }),
    decreases fuel, 0int,
{
    if fuel == 0 {
        return Err(RuntimeError::StepLimit);
    }
    let f = fuel - 1;
    match expr {
        Expr::Token(t) => match t {
            Token::Num(n) => Ok(Flow::Val(Value::Int(*n))),
            Token::Str(s) => Ok(Flow::Val(Value::Str(s.clone()))),
            Token::Bool(b) => Ok(Flow::Val(Value::Bool(*b))),
            Token::Identifier(x) => match scope.get(x) {
                Some(v) => Ok(Flow::Val(clone_value(v))),
                None => Err(RuntimeError::UndefinedVariable(x.clone())),
            },
            _ => Ok(Flow::Val(Value::Nothing)),
        },
        Expr::BinaryExpr { op, lhs, rhs } => if matches!(op, Operator::SetVal) {
            match &**lhs {
                Expr::Token(tok) => match tok {
                    Token::Identifier(x) => match interpret_expr(rhs, scope, registry, f) {
                        Ok(Flow::Val(v)) => {
                            scope.set(x.clone(), v);
                            Ok(Flow::Val(Value::Nothing))
                        },
                        Ok(Flow::Ret(v)) => Ok(Flow::Ret(v)),
                        Err(e) => Err(e),
                    },
                    _ => Err(RuntimeError::InvalidAssignTarget),
                },
                _ => Err(RuntimeError::InvalidAssignTarget),
            }
        } else {
            match interpret_expr(lhs, scope, registry, f) {
                Ok(Flow::Val(a)) => match interpret_expr(rhs, scope, registry, f) {
                    Ok(Flow::Val(b)) => match apply_binop(*op, a, b) {
                        Ok(v) => Ok(Flow::Val(v)),
                        Err(e) => Err(e),
                    },
                    Ok(Flow::Ret(v)) => Ok(Flow::Ret(v)),
                    Err(e) => Err(e),
                },
                Ok(Flow::Ret(v)) => Ok(Flow::Ret(v)),
                Err(e) => Err(e),
            }
        },
        Expr::FnCall { name, args } => match eval_args(args, 0, scope, registry, f) {
            Ok(ArgsFlow::Vals(vals)) => match call_fn(name, vals, scope, registry, f) {
                Ok(v) => Ok(Flow::Val(v)),
                Err(e) => Err(e),
            },
            Ok(ArgsFlow::Ret(v)) => Ok(Flow::Ret(v)),
            Err(e) => Err(e),
        },
        Expr::FnDef { name, args, body, return_type } => match resolve_params(args, 0) {
            Ok(params) => match get_valuetype_from(return_type.as_str()) {
                Ok(rt) => {
                    let func = Value::Func(
                        FnType::User(
                            UserFn {
                                name: name.clone(),
                                args: params,
                                body: clone_exprs(body),
                                return_type: rt,
                            },
                        ),
                    );
                    scope.set(name.clone(), func);
                    Ok(Flow::Val(Value::Nothing))
                },
                Err(e) => Err(e),
            },
            Err(e) => Err(e),
        },
        Expr::Return { inner } => match interpret_expr(inner, scope, registry, f) {
            Ok(Flow::Val(v)) => Ok(Flow::Ret(v)),
            Ok(Flow::Ret(v)) => Ok(Flow::Ret(v)),
            Err(e) => Err(e),
        },
    }
}

/// Evaluates the argument expressions from index `k` on, left to right, in
/// the current scope.
fn eval_args<R: BuiltinRegistry>(
    args: &Vec<Expr>,
    k: usize,
    scope: &mut Scope,
    registry: &mut R,
    fuel: u64,
) -> (r: Result<ArgsFlow, RuntimeError>)
    ensures
        ({
            let s = spec_eval_args(exprs_view(args@), k as int, old(scope)@, fuel as nat);
            &&& (s matches ArgsStep::Vals(vs, m) ==> (r matches Ok(af) && af matches ArgsFlow::Vals(
                xs,
            ) && values_view(xs@) == vs && final(scope)@ == m))
            &&& (s matches ArgsStep::Ret(v, m) ==> (r matches Ok(af) && af matches ArgsFlow::Ret(x)
                && x@ == v && final(scope)@ == m))
            &&& (s matches ArgsStep::Fault(e) ==> (r matches Err(er) && er@ == e))
            &&& (s is NoFuel ==> r == Err::<ArgsFlow, RuntimeError>(RuntimeError::StepLimit))
        }),
    decreases fuel, 1int,
{
    proof {
        crate::parser::lemma_exprs_view(args@);
    }
    if fuel == 0 {
        return Err(RuntimeError::StepLimit);
    }
    let f = fuel - 1;
    if k >= args.len() {
        let out: Vec<Value> = Vec::new();
        proof {
            assert(values_view(out@) =~= Seq::<ValueView>::empty());
        }
        Ok(ArgsFlow::Vals(out))
    } else {
        match interpret_expr(&args[k], scope, registry, f) {
            Ok(Flow::Val(v)) => match eval_args(args, k + 1, scope, registry, f) {
                Ok(ArgsFlow::Vals(rest)) => {
                    let ghost rest0 = rest@;
                    let mut rest = rest;
                    let mut out: Vec<Value> = Vec::new();
                    out.push(v);
                    out.append(&mut rest);
                    proof {
                        assert(values_view(out@) =~= seq![v@] + values_view(rest0));
                    }
                    Ok(ArgsFlow::Vals(out))
                },
                Ok(ArgsFlow::Ret(rv)) => Ok(ArgsFlow::Ret(rv)),
                Err(e) => Err(e),
            },
            Ok(Flow::Ret(v)) => Ok(ArgsFlow::Ret(v)),
            Err(e) => Err(e),
        }
    }
}

/// Evaluates a function body from statement `k` on: the first `return`
/// gives the call's result (`Some`), and a body that completes without one
/// gives `None`.
fn eval_body<R: BuiltinRegistry>(
    stmts: &Vec<Expr>,
    k: usize,
    scope: &mut Scope,
    registry: &mut R,
    fuel: u64,
) -> (r: Result<Option<Value>, RuntimeError>)
    ensures
        ({
            let s = spec_eval_body(exprs_view(stmts@), k as int, old(scope)@, fuel as nat);
            &&& (s is Done ==> (r matches Ok(o) && o is None))
            &&& (s matches BodyStep::Ret(v) ==> (r matches Ok(o) && o matches Some(x) && x@ == v))
            &&& (s matches BodyStep::Fault(e) ==> (r matches Err(er) && er@ == e))
            &&& (s is NoFuel ==> r == Err::<Option<Value>, RuntimeError>(RuntimeError::StepLimit))
        }),
    decreases fuel, 1int,
{
    proof {
        crate::parser::lemma_exprs_view(stmts@);
    }
    if fuel == 0 {
        return Err(RuntimeError::StepLimit);
    }
    let f = fuel - 1;
    if k >= stmts.len() {
        Ok(None)
    } else {
        match interpret_expr(&stmts[k], scope, registry, f) {
            Ok(Flow::Val(_)) => eval_body(stmts, k + 1, scope, registry, f),
            Ok(Flow::Ret(v)) => Ok(Some(v)),
            Err(e) => Err(e),
        }
    }
}

/// Calls the function bound to `name` on the already-evaluated arguments.
///
/// A built-in is delegated to the registry with its recorded return type;
/// the registry's result is returned unchanged. A user function is run
/// against a copy of the caller's scope at call time, extended with its
/// parameter bindings; the caller's scope itself is left untouched.
#[verifier::rlimit(100)]
pub fn call_fn<R: BuiltinRegistry>(
    name: &String,
    passed_args: Vec<Value>,
    scope: &Scope,
    registry: &mut R,
    fuel: u64,
) -> (r: Result<Value, RuntimeError>)
    ensures
        ({
            let s = spec_call_fn(name@, values_view(passed_args@), scope@, fuel as nat);
            &&& (s matches CallStep::Val(v) ==> (r matches Ok(x) && x@ == v))
            &&& (s matches CallStep::Fault(e) ==> (r matches Err(er) && er@ == e))
            &&& (s is NoFuel ==> r == Err::<Value, RuntimeError>(RuntimeError::StepLimit))
        }),
    decreases fuel, 2int,
{
    if fuel == 0 {
        return Err(RuntimeError::StepLimit);
    }
    let f = fuel - 1;
    match scope.get(name) {
        None => Err(RuntimeError::UndefinedFunction(name.clone())),
        Some(bound) => match bound {
            Value::Func(FnType::Builtin(b)) => {
                let bname = b.name.clone();
                let rt = clone_value(&b.return_type);
                registry.call_builtin(&bname, passed_args, rt)
            },
            Value::Func(FnType::User(u)) => {
                if passed_args.len() < u.args.len() {
                    return Err(
                        RuntimeError::ArityMismatch {
                            expected: u.args.len(),
                            got: passed_args.len(),
                        },
                    );
                }
                let ghost pvals = values_view(passed_args@);
                let ghost uparams = vtparams_view(u.args@);
                let mut callee = scope.clone();
                let mut k: usize = 0;
                while k < u.args.len()
                    invariant
                        k <= u.args@.len(),
                        u.args@.len() <= passed_args@.len(),
                        uparams == vtparams_view(u.args@),
                        pvals == values_view(passed_args@),
                        spec_bind_params(scope@, uparams, pvals, 0) == spec_bind_params(
                            callee@,
                            uparams,
                            pvals,
                            k as int,
                        ),
                    decreases u.args@.len() - k,
                {
                    let pair = &u.args[k];
                    callee.set(pair.0.clone(), clone_value(&passed_args[k]));
                    k = k + 1;
                }
                match eval_body(&u.body, 0, &mut callee, registry, f) {
                    Ok(None) => Ok(Value::Nothing),
                    Ok(Some(v)) => Ok(v),
                    Err(e) => Err(e),
                }
            },
            _ => Err(RuntimeError::NotCallable(name.clone())),
        },
    }
}

/// The mutable state of a program run: the single top-level scope.
pub struct State {
    pub toplevel_scope: Scope,
}

/// The interpreter: the parsed top-level statements and the run's state.
pub struct Interpreter {
    pub state: State,
    pub exprs: Vec<Expr>,
}

impl Interpreter {
    /// Builds an interpreter over the parsed statements. The registry
    /// populates the fresh top-level scope with its built-in bindings.
    pub fn new<R: BuiltinRegistry>(exprs: Vec<Expr>, registry: &mut R) -> (it: Interpreter)
        ensures
            it.exprs == exprs,
    {
        let mut toplevel_scope = Scope::new();
        registry.populate(&mut toplevel_scope);
        Interpreter { state: State { toplevel_scope }, exprs }
    }

    /// Evaluates every top-level statement in order against the top-level
    /// scope, discarding each result value; the first error aborts the run.
    pub fn run<R: BuiltinRegistry>(&mut self, registry: &mut R) -> (r: Result<(), RuntimeError>)
        ensures
            ({
                let s = spec_run(
                    exprs_view(old(self).exprs@),
                    0,
                    old(self).state.toplevel_scope@,
                    EVAL_FUEL as nat,
                );
                &&& (s matches RunStep::Done(m) ==> (r is Ok && final(self).state.toplevel_scope@
                    == m))
                &&& (s matches RunStep::Fault(e) ==> (r matches Err(er) && er@ == e))
                &&& (s is NoFuel ==> r == Err::<(), RuntimeError>(RuntimeError::StepLimit))
            }),
            final(self).exprs == old(self).exprs,
    {
        let ghost stmts = exprs_view(self.exprs@);
        let ghost m0 = self.state.toplevel_scope@;
        let ghost exprs0 = self.exprs;
        proof {
            crate::parser::lemma_exprs_view(self.exprs@);
        }
        let mut k: usize = 0;
        while k < self.exprs.len()
            invariant
                k <= self.exprs@.len(),
                self.exprs == exprs0,
                exprs0 == old(self).exprs,
                m0 == old(self).state.toplevel_scope@,
                stmts == exprs_view(self.exprs@),
                stmts.len() == self.exprs@.len(),
                forall|m: int| 0 <= m < stmts.len() ==> stmts[m] == crate::parser::expr_view(
                    self.exprs@[m],
                ),
                spec_run(stmts, 0, m0, EVAL_FUEL as nat) == spec_run(
                    stmts,
                    k as int,
                    self.state.toplevel_scope@,
                    EVAL_FUEL as nat,
                ) || spec_run(stmts, 0, m0, EVAL_FUEL as nat) is External,
            decreases self.exprs@.len() - k,
        {
            let stmt = &self.exprs[k];
            proof {
                assert(stmts[k as int] == stmt@);
            }
            match interpret_expr(stmt, &mut self.state.toplevel_scope, registry, EVAL_FUEL) {
                Ok(Flow::Val(_)) => {
                    k = k + 1;
                },
                Ok(Flow::Ret(_)) => {
                    return Err(RuntimeError::ReturnOutsideFunction);
                },
                Err(er) => {
                    return Err(er);
                },
            }
        }
        Ok(())
    }
}

} // verus!
