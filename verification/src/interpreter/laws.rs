//! Laws of the evaluator, stated and proved against the model.

use vstd::prelude::*;

use crate::ast::{
    BinaryOperator,
    BinaryView,
    CallView,
    FirstView,
    IfView,
    IntegerView,
    LocationView,
    SecondView,
    TermView,
    TupleView,
    VariableView,
};
use crate::interpreter::error::ErrorView;
use crate::interpreter::semantics::{
    EnvView,
    bind_params,
    eval_spec,
    eq_spec,
    neq_spec,
};
use crate::interpreter::value::{ValueView, kind_of};

verus! {

/// An integer literal term.
pub open spec fn int_term(value: i32, location: LocationView) -> TermView {
    TermView::Int(IntegerView { value, location })
}

/// A binary operation on two sub-terms.
pub open spec fn binary_term(op: BinaryOperator, lhs: TermView, rhs: TermView, location: LocationView) -> TermView {
    TermView::Binary(BinaryView { lhs: Box::new(lhs), op, rhs: Box::new(rhs), location })
}

/// Adding two integer literals yields their 32-bit wrapping sum and prints
/// nothing, in every environment and at every recursion allowance.
pub proof fn lemma_add_integers(env: EnvView, a: i32, b: i32, la: LocationView, lb: LocationView, lt: LocationView, fuel: nat)
    ensures
        ({
            let o = eval_spec(env, binary_term(BinaryOperator::Add, int_term(a, la), int_term(b, lb), lt), fuel);
            &&& o.result == Ok::<ValueView, ErrorView>(ValueView::Integer(a.wrapping_add(b)))
            &&& o.output == Seq::<Seq<char>>::empty()
        }),
{
    reveal_with_fuel(eval_spec, 3);
    assert(Seq::<Seq<char>>::empty() + Seq::<Seq<char>>::empty() =~= Seq::<Seq<char>>::empty());
}

/// Comparing two integer literals with `<` yields the boolean ordering of
/// their values and prints nothing.
pub proof fn lemma_less_than_integers(env: EnvView, a: i32, b: i32, la: LocationView, lb: LocationView, lt: LocationView, fuel: nat)
    ensures
        ({
            let o = eval_spec(env, binary_term(BinaryOperator::Lt, int_term(a, la), int_term(b, lb), lt), fuel);
            &&& o.result == Ok::<ValueView, ErrorView>(ValueView::Boolean(a < b))
            &&& o.output == Seq::<Seq<char>>::empty()
        }),
{
    reveal_with_fuel(eval_spec, 3);
    assert(Seq::<Seq<char>>::empty() + Seq::<Seq<char>>::empty() =~= Seq::<Seq<char>>::empty());
}

/// Comparing two like-typed values with `==` and with `!=` yields
/// complementary booleans on integers, booleans and strings; on tuples the
/// two are not complementary in general, because both combine their
/// component results with logical and.
pub proof fn lemma_eq_neq_scalar(l: ValueView, r: ValueView)
    requires
        kind_of(l) == kind_of(r),
        !(l is Tuple),
        !(l is Function),
    ensures
        eq_spec(l, r) matches Ok(v) && v matches ValueView::Boolean(e) && (neq_spec(l, r)
            matches Ok(w) && w == ValueView::Boolean(!e)),
{
}

/// `(a1, a2) == (b1, b2)` on integer pairs is the conjunction of the
/// component equalities.
pub proof fn lemma_tuple_eq_integers(a1: i32, a2: i32, b1: i32, b2: i32)
    ensures
        eq_spec(
            ValueView::Tuple(Box::new(ValueView::Integer(a1)), Box::new(ValueView::Integer(a2))),
            ValueView::Tuple(Box::new(ValueView::Integer(b1)), Box::new(ValueView::Integer(b2))),
        ) == Ok::<ValueView, ErrorView>(ValueView::Boolean(a1 == b1 && a2 == b2)),
{
    reveal_with_fuel(eq_spec, 2);
}

/// `(a1, a2) != (b1, b2)` on integer pairs is the conjunction — not the
/// disjunction — of the component inequalities, exactly as the behaviour
/// stands: a pair differing in only one component counts as not unequal.
pub proof fn lemma_tuple_neq_integers(a1: i32, a2: i32, b1: i32, b2: i32)
    ensures
        neq_spec(
            ValueView::Tuple(Box::new(ValueView::Integer(a1)), Box::new(ValueView::Integer(a2))),
            ValueView::Tuple(Box::new(ValueView::Integer(b1)), Box::new(ValueView::Integer(b2))),
        ) == Ok::<ValueView, ErrorView>(ValueView::Boolean(a1 != b1 && a2 != b2)),
{
    reveal_with_fuel(neq_spec, 2);
}

/// A name that is not among a function's parameters keeps, in the call
/// environment, exactly the binding it has at the call site: function values
/// capture no environment of their own, so free variables in a body resolve
/// against the caller's context.
pub proof fn lemma_scope_leak(env: EnvView, params: Seq<VariableView>, vals: Seq<ValueView>, name: Seq<char>)
    requires
        vals.len() >= params.len(),
        forall|m: int| 0 <= m < params.len() ==> params[m].text != name,
    ensures
        bind_params(env, params, vals).contains_key(name) == env.contains_key(name),
        env.contains_key(name) ==> bind_params(env, params, vals)[name] == env[name],
    decreases params.len(),
{
    if params.len() > 0 {
        lemma_scope_leak(
            env.insert(params[0].text, vals[0]),
            params.drop_first(),
            vals.drop_first(),
            name,
        );
    }
}

/// Only the first `params.len()` argument values reach the call
/// environment: extra arguments are ignored after their evaluation.
pub proof fn lemma_extra_args_ignored(env: EnvView, params: Seq<VariableView>, vals: Seq<ValueView>)
    requires
        vals.len() >= params.len(),
    ensures
        bind_params(env, params, vals) == bind_params(env, params, vals.take(params.len() as int)),
    decreases params.len(),
{
    if params.len() > 0 {
        assert(vals.take(params.len() as int)[0] == vals[0]);
        assert(vals.take(params.len() as int).drop_first() =~= vals.drop_first().take(
            params.drop_first().len() as int,
        ));
        lemma_extra_args_ignored(
            env.insert(params[0].text, vals[0]),
            params.drop_first(),
            vals.drop_first(),
        );
    }
}

/// Calling a function with fewer arguments than it declares parameters
/// fails with `ArityMismatch` — expected the parameter count, got the
/// argument count — and no argument is evaluated: nothing is printed.
pub proof fn lemma_arity_mismatch(env: EnvView, t: CallView, name: Seq<char>, fuel: nat)
    requires
        *t.callee matches TermView::Var(v) && v.text == name,
        env.contains_key(name),
        env[name] matches ValueView::Function(f) && f.parameters.len() > t.arguments.len(),
    ensures
        ({
            let o = eval_spec(env, TermView::Call(t), fuel);
            &&& o.result == Err::<ValueView, ErrorView>(
                ErrorView::ArityMismatch {
                    callee: name,
                    expected: env[name]->Function_0.parameters.len(),
                    got: t.arguments.len(),
                },
            )
            &&& o.output == Seq::<Seq<char>>::empty()
        }),
{
}

/// `first` and `second` applied to a term whose value is not a tuple fail
/// with `NonTupleAccess`, and the output is the inner term's alone.
pub proof fn lemma_first_non_tuple(env: EnvView, t: FirstView, fuel: nat)
    requires
        eval_spec(env, *t.value, fuel).result matches Ok(v) && !(v is Tuple),
    ensures
        ({
            let o = eval_spec(env, TermView::First(t), fuel);
            &&& o.result == Err::<ValueView, ErrorView>(
                ErrorView::NonTupleAccess(crate::interpreter::error::Accessor::First),
            )
            &&& o.output == eval_spec(env, *t.value, fuel).output
        }),
{
}

/// `second` applied to a term whose value is not a tuple fails with
/// `NonTupleAccess`, and the output is the inner term's alone.
pub proof fn lemma_second_non_tuple(env: EnvView, t: SecondView, fuel: nat)
    requires
        eval_spec(env, *t.value, fuel).result matches Ok(v) && !(v is Tuple),
    ensures
        ({
            let o = eval_spec(env, TermView::Second(t), fuel);
            &&& o.result == Err::<ValueView, ErrorView>(
                ErrorView::NonTupleAccess(crate::interpreter::error::Accessor::Second),
            )
            &&& o.output == eval_spec(env, *t.value, fuel).output
        }),
{
}

/// A conditional whose condition evaluates to a non-boolean value fails
/// with `TypeMismatchInCondition` naming the actual type, and neither
/// branch is evaluated: the output is the condition's alone.
pub proof fn lemma_condition_type_mismatch(env: EnvView, t: IfView, fuel: nat)
    requires
        eval_spec(env, *t.condition, fuel).result matches Ok(c) && !(c is Boolean),
    ensures
        ({
            let o = eval_spec(env, TermView::If(t), fuel);
            let co = eval_spec(env, *t.condition, fuel);
            &&& o.result == Err::<ValueView, ErrorView>(
                ErrorView::TypeMismatchInCondition(kind_of(co.result->Ok_0)),
            )
            &&& o.output == co.output
        }),
{
}

/// Evaluating a pair of integer literals yields the tuple of their values.
pub proof fn lemma_tuple_literal_integers(env: EnvView, a: i32, b: i32, la: LocationView, lb: LocationView, lt: LocationView, fuel: nat)
    ensures
        ({
            let t = TermView::Tuple(
                TupleView {
                    first: Box::new(int_term(a, la)),
                    second: Box::new(int_term(b, lb)),
                    location: lt,
                },
            );
            let o = eval_spec(env, t, fuel);
            &&& o.result == Ok::<ValueView, ErrorView>(
                ValueView::Tuple(
                    Box::new(ValueView::Integer(a)),
                    Box::new(ValueView::Integer(b)),
                ),
            )
            &&& o.output == Seq::<Seq<char>>::empty()
        }),
{
    reveal_with_fuel(eval_spec, 3);
    assert(Seq::<Seq<char>>::empty() + Seq::<Seq<char>>::empty() =~= Seq::<Seq<char>>::empty());
}

} // verus!
