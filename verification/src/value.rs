//! Runtime values of the language.

use crate::parser::clone_exprs;
use crate::parser::exprs_view;
use crate::parser::Expr;
use crate::parser::ExprView;
use vstd::prelude::*;

verus! {

/// A runtime value.
#[derive(Debug, PartialEq)]
pub enum Value {
    /// An integer.
    Int(i64),
    /// A text string.
    Str(String),
    /// A boolean.
    Bool(bool),
    /// A callable: a built-in handle or a user-defined function.
    Func(FnType),
    /// The absence of a value; also the result of statements that produce
    /// nothing useful.
    Nothing,
}

/// The type-annotation domain, derived from the literal type names
/// `int`, `string`, `bool` and the sentinel `_none`.
#[derive(Debug, Clone, Copy, PartialEq, Eq, Structural)]
pub enum ValueType {
    Int,
    Str,
    Bool,
    Func,
    Nothing,
}

/// A callable value: either a handle into the external built-in registry or
/// a user-defined function.
#[derive(Debug, PartialEq)]
pub enum FnType {
    Builtin(BuiltinFn),
    User(UserFn),
}

/// A handle to a built-in function of the external registry: its name and
/// the declared return type recorded at binding time.
#[derive(Debug, PartialEq)]
pub struct BuiltinFn {
    pub name: String,
    pub return_type: Box<Value>,
}

/// A user-defined function: its parameters in positional order (name and
/// annotated type), its body statements, and its declared return type.
#[derive(Debug, PartialEq)]
pub struct UserFn {
    pub name: String,
    pub args: Vec<(String, ValueType)>,
    pub body: Vec<Expr>,
    pub return_type: ValueType,
}

/// Specification-level model of a [`Value`].
pub enum ValueView {
    Int(i64),
    Str(Seq<char>),
    Bool(bool),
    Func(FnTypeView),
    Nothing,
}

/// Specification-level model of a [`FnType`].
pub enum FnTypeView {
    Builtin(BuiltinFnView),
    User(UserFnView),
}

/// Specification-level model of a [`BuiltinFn`].
pub struct BuiltinFnView {
    pub name: Seq<char>,
    pub return_type: Box<ValueView>,
}

/// Specification-level model of a [`UserFn`].
pub struct UserFnView {
    pub name: Seq<char>,
    pub args: Seq<(Seq<char>, ValueType)>,
    pub body: Seq<ExprView>,
    pub return_type: ValueType,
}

/// The models of a declared parameter list, elementwise.
pub open spec fn vtparams_view(s: Seq<(String, ValueType)>) -> Seq<(Seq<char>, ValueType)> {
    Seq::new(s.len(), |k: int| (s[k].0@, s[k].1))
}

/// The model of one runtime value.
pub open spec fn value_view(v: Value) -> ValueView
    decreases v,
    via value_view_decreases
{
    match v {
        Value::Int(n) => ValueView::Int(n),
        Value::Str(s) => ValueView::Str(s@),
        Value::Bool(b) => ValueView::Bool(b),
        Value::Func(FnType::Builtin(b)) => ValueView::Func(
            FnTypeView::Builtin(
                BuiltinFnView { name: b.name@, return_type: Box::new(value_view(*b.return_type)) },
            ),
        ),
        Value::Func(FnType::User(u)) => ValueView::Func(
            FnTypeView::User(
                UserFnView {
                    name: u.name@,
                    args: vtparams_view(u.args@),
                    body: exprs_view(u.body@),
                    return_type: u.return_type,
                },
            ),
        ),
        Value::Nothing => ValueView::Nothing,
    }
}

#[via_fn]
proof fn value_view_decreases(v: Value) {
    match v {
        Value::Func(ft) => {
            assert(decreases_to!(v => ft));
            match ft {
                FnType::Builtin(b) => {
                    assert(decreases_to!(ft => b));
                    assert(decreases_to!(b => b.return_type));
                },
                FnType::User(_) => (),
            }
        },
        _ => (),
    }
}

impl View for Value {
    type V = ValueView;

    open spec fn view(&self) -> ValueView {
        value_view(*self)
    }
}

/// The models of a sequence of runtime values, elementwise.
pub open spec fn values_view(s: Seq<Value>) -> Seq<ValueView> {
    Seq::new(s.len(), |k: int| value_view(s[k]))
}

/// Deep copy of one runtime value, preserving its model.
pub fn clone_value(v: &Value) -> (r: Value)
    ensures
        r@ == v@,
    decreases *v,
{
    match v {
        Value::Int(n) => Value::Int(*n),
        Value::Str(s) => Value::Str(s.clone()),
        Value::Bool(b) => Value::Bool(*b),
        Value::Func(FnType::Builtin(b)) => {
            proof {
                let ghost ft = FnType::Builtin(*b);
                assert(decreases_to!(*v => ft));
                assert(decreases_to!(ft => *b));
                assert(decreases_to!(*b => b.return_type));
            }
            Value::Func(
                FnType::Builtin(
                    BuiltinFn {
                        name: b.name.clone(),
                        return_type: Box::new(clone_value(&b.return_type)),
                    },
                ),
            )
        },
        Value::Func(FnType::User(u)) => {
            let mut args: Vec<(String, ValueType)> = Vec::new();
            let mut k: usize = 0;
            while k < u.args.len()
                invariant
                    k <= u.args@.len(),
                    args@.len() == k as int,
                    forall|m: int|
                        0 <= m < k as int ==> args@[m].0@ == u.args@[m].0@ && args@[m].1
                            == u.args@[m].1,
                decreases u.args@.len() - k,
            {
                let pair = &u.args[k];
                args.push((pair.0.clone(), pair.1));
                k = k + 1;
            }
            proof {
                assert(vtparams_view(args@) =~= vtparams_view(u.args@));
            }
            Value::Func(
                FnType::User(
                    UserFn {
                        name: u.name.clone(),
                        args,
                        body: clone_exprs(&u.body),
                        return_type: u.return_type,
                    },
                ),
            )
        },
        Value::Nothing => Value::Nothing,
    }
}

impl Clone for Value {
    /// Cloning a value preserves its model.
    fn clone(&self) -> (r: Value)
        ensures
            r@ == self@,
    {
        clone_value(self)
    }
}

} // verus!
