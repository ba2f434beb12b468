//! Laws of the language, stated and proved against the specification
//! parser and evaluator.

use crate::interpreter::spec_apply_binop;
use crate::interpreter::spec_bind_params;
use crate::interpreter::spec_call_fn;
use crate::interpreter::spec_eval;
use crate::interpreter::spec_eval_args;
use crate::interpreter::spec_eval_body;
use crate::parser::spec_parse_expr;
use crate::parser::spec_parse_program;
use crate::parser::ExprView;
use crate::parser::Operator;
use crate::parser::ParseError;
use crate::scope::ScopeView;
use crate::token::TokenView;
use crate::value::FnTypeView;
use crate::value::UserFnView;
use crate::value::ValueView;
use crate::interpreter::ArgsStep;
use crate::interpreter::BodyStep;
use crate::interpreter::CallStep;
use crate::interpreter::EvalStep;
use vstd::prelude::*;

verus! {

/// The value a bare literal token denotes.
pub open spec fn literal_value(t: TokenView) -> ValueView {
    match t {
        TokenView::Num(n) => ValueView::Int(n),
        TokenView::Str(s) => ValueView::Str(s),
        TokenView::Bool(b) => ValueView::Bool(b),
        _ => ValueView::Nothing,
    }
}

/// Round-trip for literals: for every literal token (integer, string or
/// boolean), parsing the bare literal statement yields exactly the literal
/// leaf, and evaluating that leaf in any scope yields exactly the literal
/// value and leaves the scope unchanged.
pub proof fn lemma_literal_round_trip(t: TokenView, m: ScopeView, fuel: nat)
    requires
        t is Num || t is Str || t is Bool,
        fuel >= 1,
    ensures
        spec_parse_program(seq![t, TokenView::Semicolon], 0) == Ok::<Seq<ExprView>, ParseError>(
            seq![ExprView::Token(t)],
        ),
        spec_eval(ExprView::Token(t), m, fuel) == EvalStep::Val(literal_value(t), m),
{
    let toks = seq![t, TokenView::Semicolon];
    reveal_with_fuel(spec_parse_program, 3);
    reveal_with_fuel(spec_parse_expr, 2);
    assert(spec_parse_expr(toks, 0, true) == Ok::<(ExprView, int), ParseError>(
        (ExprView::Token(t), 2int),
    ));
    assert(spec_parse_program(toks, 2) == Ok::<Seq<ExprView>, ParseError>(
        Seq::<ExprView>::empty(),
    ));
    assert(seq![ExprView::Token(t)] + Seq::<ExprView>::empty() =~= seq![ExprView::Token(t)]);
}

/// Assignment then lookup: when the right-hand side evaluates to a value,
/// the assignment statement binds the name to exactly that value (and
/// itself produces no value), and a later lookup of the name yields the
/// bound value, whatever fuel the lookup is given.
pub proof fn lemma_assign_then_lookup(x: Seq<char>, e: ExprView, m: ScopeView, fuel: nat)
    requires
        fuel >= 1,
        spec_eval(e, m, (fuel - 1) as nat) matches EvalStep::Val(_, _),
    ensures
        ({
            let assign = ExprView::BinaryExpr {
                op: Operator::SetVal,
                lhs: Box::new(ExprView::Token(TokenView::Identifier(x))),
                rhs: Box::new(e),
            };
            match spec_eval(e, m, (fuel - 1) as nat) {
                EvalStep::Val(v, m1) => {
                    &&& spec_eval(assign, m, fuel) == EvalStep::Val(
                        ValueView::Nothing,
                        m1.insert(x, v),
                    )
                    &&& forall|f2: nat|
                        f2 >= 1 ==> spec_eval(
                            ExprView::Token(TokenView::Identifier(x)),
                            m1.insert(x, v),
                            f2,
                        ) == EvalStep::Val(v, m1.insert(x, v))
                },
                _ => false,
            }
        }),
{
}

/// Rebinding is last-write-wins: after a second assignment to the same
/// name, a lookup yields the newer value; bindings of other names are
/// untouched by either assignment.
pub proof fn lemma_rebind_last_wins(
    x: Seq<char>,
    v1: ValueView,
    v2: ValueView,
    m: ScopeView,
    fuel: nat,
)
    requires
        fuel >= 1,
    ensures
        m.insert(x, v1).insert(x, v2)[x] == v2,
        spec_eval(
            ExprView::Token(TokenView::Identifier(x)),
            m.insert(x, v1).insert(x, v2),
            fuel,
        ) == EvalStep::Val(v2, m.insert(x, v1).insert(x, v2)),
        forall|y: Seq<char>|
            y != x && m.contains_key(y) ==> m.insert(x, v1).insert(x, v2)[y] == m[y],
{
}

/// Arithmetic and comparison on literal operands: a binary expression over
/// two literal leaves yields exactly what [`spec_apply_binop`] says for the
/// two literal values — the sum or concatenation for `Add`, the integer
/// result for `Sub`, `Mul` and truncating `Div`, a boolean for `Eq` and
/// `Neq` — and fails with exactly its error (type mismatch across types,
/// division by zero, overflow) on every other pairing. The scope is never
/// changed.
pub proof fn lemma_binop_on_literals(
    op: Operator,
    lt: TokenView,
    rt: TokenView,
    m: ScopeView,
    fuel: nat,
)
    requires
        !(op is SetVal),
        lt is Num || lt is Str || lt is Bool,
        rt is Num || rt is Str || rt is Bool,
        fuel >= 2,
    ensures
        ({
            let e = ExprView::BinaryExpr {
                op,
                lhs: Box::new(ExprView::Token(lt)),
                rhs: Box::new(ExprView::Token(rt)),
            };
            match spec_apply_binop(op, literal_value(lt), literal_value(rt)) {
                Ok(v) => spec_eval(e, m, fuel) == EvalStep::Val(v, m),
                Err(er) => spec_eval(e, m, fuel) == EvalStep::Fault(er),
            }
        }),
{
    let f1 = (fuel - 1) as nat;
    assert(spec_eval(ExprView::Token(lt), m, f1) == EvalStep::Val(literal_value(lt), m));
    assert(spec_eval(ExprView::Token(rt), m, f1) == EvalStep::Val(literal_value(rt), m));
}

/// No closures, part one: a user function value records only its name,
/// parameters, body and return type — never the scope it was defined in —
/// and calling it evaluates the body against the caller's scope as it is
/// at call time, extended with the parameter bindings.
pub proof fn lemma_call_time_snapshot(
    name: Seq<char>,
    vs: Seq<ValueView>,
    m: ScopeView,
    u: UserFnView,
    fuel: nat,
)
    requires
        fuel >= 1,
        m.contains_key(name),
        m[name] == ValueView::Func(FnTypeView::User(u)),
        vs.len() >= u.args.len(),
    ensures
        spec_call_fn(name, vs, m, fuel) == (match spec_eval_body(
            u.body,
            0,
            spec_bind_params(m, u.args, vs, 0),
            (fuel - 1) as nat,
        ) {
            BodyStep::Done => CallStep::Val(ValueView::Nothing),
            BodyStep::Ret(v) => CallStep::Val(v),
            BodyStep::Fault(er) => CallStep::Fault(er),
            BodyStep::NoFuel => CallStep::NoFuel,
            BodyStep::External => CallStep::External,
        }),
{
}

/// No closures, part two: whatever a user function's body does to its own
/// scope is discarded when the call returns — the caller goes on with
/// exactly the scope it had after evaluating the arguments.
pub proof fn lemma_call_discards_callee_scope(
    name: Seq<char>,
    args: Seq<ExprView>,
    m: ScopeView,
    v: ValueView,
    fuel: nat,
)
    requires
        fuel >= 1,
        spec_eval_args(args, 0, m, (fuel - 1) as nat) matches ArgsStep::Vals(_, _),
    ensures
        ({
            let call = ExprView::FnCall { name, args };
            match spec_eval_args(args, 0, m, (fuel - 1) as nat) {
                ArgsStep::Vals(vs, m1) => spec_call_fn(name, vs, m1, (fuel - 1) as nat)
                    == CallStep::Val(v) ==> spec_eval(call, m, fuel) == EvalStep::Val(v, m1),
                _ => false,
            }
        }),
{
}

} // verus!
