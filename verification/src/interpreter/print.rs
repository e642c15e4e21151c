//! The print primitive.
//!
//! `print` evaluates its argument, renders the value to one line of text,
//! writes that line to standard output, records it in the output log, and
//! yields `Boolean(true)` as its own value.

use std::io::Write;

use vstd::prelude::*;

use crate::ast::{Print, TermView};
use crate::interpreter::Context;
use crate::interpreter::error::EvalError;
use crate::interpreter::eval_term;
use crate::interpreter::semantics::{eval_post, eval_spec, lines_view};
use crate::interpreter::value::{Value, render_value};

verus! {

/// Relies on the standard library's `writeln` to standard output: writes the
/// line followed by a newline. A write failure is ignored; nothing is
/// promised of the call.
#[verifier::external_body]
fn emit_line(line: &String) {
    let _ = writeln!(std::io::stdout(), "{}", line);
}

/// `print(value)`: evaluates the inner term, writes its rendering as one
/// line, and returns `Boolean(true)`.
pub fn print(context: &Context, t: &Print, fuel: u64, out: &mut Vec<String>) -> (r: Result<
    Value,
    EvalError,
>)
    ensures
        eval_post(eval_spec(context@, TermView::Print(t@), fuel as nat), old(out)@, final(out)@, r),
    decreases fuel, *t,
{
    let ghost pre = out@;
    match eval_term(context, &*t.value, fuel, out) {
        Err(e) => Err(e),
        Ok(value) => {
            let line = render_value(&value);
            emit_line(&line);
            let ghost mid = out@;
            out.push(line);
            proof {
                let vo = eval_spec(context@, *t@.value, fuel as nat);
                assert(lines_view(out@) =~= lines_view(mid).push(line@));
                assert(lines_view(pre) + vo.output.push(line@) =~= (lines_view(pre)
                    + vo.output).push(line@));
            }
            Ok(Value::Boolean(true))
        },
    }
}

} // verus!
