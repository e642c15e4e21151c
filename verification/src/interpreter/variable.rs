//! Variable reference and let-binding evaluation.

use vstd::prelude::*;

use crate::ast::{Let, TermView, Variable};
use crate::interpreter::Context;
use crate::interpreter::error::{ErrorView, EvalError};
use crate::interpreter::eval_term;
use crate::interpreter::semantics::{eval_post, eval_spec, lines_view};
use crate::interpreter::value::Value;

verus! {

/// Looks a variable up in the context; an unbound name is an
/// `UndefinedVariable` error.
pub fn get_variable_value(context: &Context, t: &Variable) -> (r: Result<Value, EvalError>)
    ensures
        match r {
            Ok(v) => context@.contains_key(t.text@) && v@ == context@[t.text@],
            Err(e) => !context@.contains_key(t.text@) && e@ == ErrorView::UndefinedVariable(
                t.text@,
            ),
        },
{
    match context.get(t.text.as_str()) {
        Some(v) => Ok(v.clone()),
        None => Err(EvalError::UndefinedVariable(t.text.clone())),
    }
}

/// `let name = value; next`: evaluates `value` in the current context, binds
/// it under `name` in a new context, and evaluates `next` there.
pub fn assign_variable(context: &Context, t: &Let, fuel: u64, out: &mut Vec<String>) -> (r: Result<
    Value,
    EvalError,
>)
    ensures
        eval_post(eval_spec(context@, TermView::Let(t@), fuel as nat), old(out)@, final(out)@, r),
    decreases fuel, *t,
{
    let ghost pre = out@;
    match eval_term(context, &*t.value, fuel, out) {
        Err(e) => Err(e),
        Ok(value) => {
            let ghost mid = out@;
            let updated_context = context.add(t.name.text.as_str(), &value);
            let r = eval_term(&updated_context, &*t.next, fuel, out);
            proof {
                let vo = eval_spec(context@, *t@.value, fuel as nat);
                let no = eval_spec(context@.insert(t.name.text@, value@), *t@.next, fuel as nat);
                assert(lines_view(pre) + (vo.output + no.output) =~= (lines_view(pre) + vo.output)
                    + no.output);
            }
            r
        },
    }
}

} // verus!
