//! Conditional evaluation.

use vstd::prelude::*;

use crate::ast::{If, TermView};
use crate::interpreter::Context;
use crate::interpreter::error::EvalError;
use crate::interpreter::eval_term;
use crate::interpreter::semantics::{eval_post, eval_spec, lines_view};
use crate::interpreter::value::Value;

verus! {

/// `if condition { then_branch } else { otherwise }`: evaluates the
/// condition; a true boolean selects the first branch, a false one the
/// second, and exactly one branch is ever evaluated. A non-boolean condition
/// is a `TypeMismatchInCondition` error, and neither branch is evaluated.
pub fn do_if(context: &Context, t: &If, fuel: u64, out: &mut Vec<String>) -> (r: Result<
    Value,
    EvalError,
>)
    ensures
        eval_post(eval_spec(context@, TermView::If(t@), fuel as nat), old(out)@, final(out)@, r),
    decreases fuel, *t,
{
    let ghost pre = out@;
    match eval_term(context, &*t.condition, fuel, out) {
        Err(e) => Err(e),
        Ok(cond) => match cond {
            Value::Boolean(b) => {
                let r = if b {
                    eval_term(context, &*t.then_branch, fuel, out)
                } else {
                    eval_term(context, &*t.otherwise, fuel, out)
                };
                proof {
                    let co = eval_spec(context@, *t@.condition, fuel as nat);
                    let bo = if b {
                        eval_spec(context@, *t@.then_branch, fuel as nat)
                    } else {
                        eval_spec(context@, *t@.otherwise, fuel as nat)
                    };
                    assert(lines_view(pre) + (co.output + bo.output) =~= (lines_view(pre)
                        + co.output) + bo.output);
                }
                r
            },
            value => Err(EvalError::TypeMismatchInCondition(value.kind())),
        },
    }
}

} // verus!
