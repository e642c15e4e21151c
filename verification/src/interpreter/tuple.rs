//! Tuple accessor evaluation.

use vstd::prelude::*;

use crate::ast::{First, Second, TermView};
use crate::interpreter::Context;
use crate::interpreter::error::{Accessor, EvalError};
use crate::interpreter::eval_term;
use crate::interpreter::semantics::{eval_post, eval_spec};
use crate::interpreter::value::Value;

verus! {

/// `first(value)`: the first component of a tuple; anything else is a
/// `NonTupleAccess` error.
pub fn first(context: &Context, t: &First, fuel: u64, out: &mut Vec<String>) -> (r: Result<
    Value,
    EvalError,
>)
    ensures
        eval_post(eval_spec(context@, TermView::First(t@), fuel as nat), old(out)@, final(out)@, r),
    decreases fuel, *t,
{
    match eval_term(context, &*t.value, fuel, out) {
        Err(e) => Err(e),
        Ok(value) => match value {
            Value::Tuple(a, _) => Ok(*a),
            _ => Err(EvalError::NonTupleAccess(Accessor::First)),
        },
    }
}

/// `second(value)`: the second component of a tuple; anything else is a
/// `NonTupleAccess` error.
pub fn second(context: &Context, t: &Second, fuel: u64, out: &mut Vec<String>) -> (r: Result<
    Value,
    EvalError,
>)
    ensures
        eval_post(eval_spec(context@, TermView::Second(t@), fuel as nat), old(out)@, final(out)@, r),
    decreases fuel, *t,
{
    match eval_term(context, &*t.value, fuel, out) {
        Err(e) => Err(e),
        Ok(value) => match value {
            Value::Tuple(_, b) => Ok(*b),
            _ => Err(EvalError::NonTupleAccess(Accessor::Second)),
        },
    }
}

} // verus!
