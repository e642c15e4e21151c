//! Function-call evaluation: callee resolution, arity checking, argument
//! evaluation, parameter binding, and the call itself.

use vstd::prelude::*;

use crate::ast::{Call, Term, TermView, lemma_terms_view_index};
use crate::interpreter::Context;
use crate::interpreter::error::{ErrorView, EvalError};
use crate::interpreter::eval_term;
use crate::interpreter::semantics::{
    ArgsOut,
    args_prepend,
    bind_params,
    eval_args_spec,
    eval_post,
    eval_spec,
    lines_view,
    values_view,
};
use crate::interpreter::value::{Value, ValueView};

verus! {

/// Whether, in `env`, the callee term `t` resolves to the name `name` of a
/// bound function value: the callee must be a direct variable reference, and
/// the value bound under its name must be a function.
pub open spec fn resolves_callee(env: Map<Seq<char>, ValueView>, t: TermView, name: Seq<char>) -> bool {
    &&& t matches TermView::Var(v) && v.text == name
    &&& env.contains_key(name)
    &&& env[name] is Function
}

/// Resolves the callee of a call: a direct variable reference whose bound
/// value is a function yields that name; any other callee shape is an
/// `InvalidCallee` error.
pub fn get_function_callee(context: &Context, term: &Term) -> (r: Result<String, EvalError>)
    ensures
        match r {
            Ok(name) => resolves_callee(context@, term@, name@),
            Err(e) => {
                &&& e@ == ErrorView::InvalidCallee
                &&& (term@ matches TermView::Var(v) ==> !(context@.contains_key(v.text)
                    && context@[v.text] is Function))
            },
        },
{
    if let Term::Var(v) = term {
        if let Some(value) = context.get(v.text.as_str()) {
            if let Value::Function(_) = value {
                return Ok(v.text.clone());
            }
        }
    }
    Err(EvalError::InvalidCallee)
}

/// `callee(arguments)`: resolves the callee, checks arity (too few arguments
/// fail; extra arguments are evaluated and ignored), evaluates the arguments
/// left to right against the caller's context, binds each parameter to its
/// argument on top of that same context, and evaluates the function body
/// there.
#[verifier::loop_isolation(false)]
pub fn call_function(context: &Context, t: &Call, fuel: u64, out: &mut Vec<String>) -> (r: Result<
    Value,
    EvalError,
>)
    ensures
        eval_post(eval_spec(context@, TermView::Call(t@), fuel as nat), old(out)@, final(out)@, r),
    decreases fuel, *t,
{
    let ghost pre = out@;
    let callee_name = match get_function_callee(context, &*t.callee) {
        Ok(name) => name,
        Err(e) => {
            proof {
                assert(lines_view(pre) =~= lines_view(pre) + Seq::<Seq<char>>::empty());
            }
            return Err(e);
        },
    };
    let func = match context.get(callee_name.as_str()) {
        Some(Value::Function(f)) => f.clone(),
        Some(_) => {
            return Err(EvalError::NotCallable(callee_name));
        },
        None => {
            return Err(EvalError::UndefinedVariable(callee_name));
        },
    };
    let ghost fv = context@[callee_name@]->Function_0;
    proof {
        assert(fv == crate::ast::function_view(func));
    }
    if func.parameters.len() > t.arguments.len() {
        proof {
            crate::ast::lemma_terms_view_len(t.arguments@);
            assert(lines_view(pre) =~= lines_view(pre) + Seq::<Seq<char>>::empty());
        }
        return Err(
            EvalError::ArityMismatch {
                callee: callee_name,
                expected: func.parameters.len(),
                got: t.arguments.len(),
            },
        );
    }

    // Evaluate the arguments, left to right, against the caller's context.
    let ghost env = context@;
    let ghost argsv = t@.arguments;
    let mut evaled_args: Vec<Value> = Vec::new();
    let ghost mut acc: Seq<Seq<char>> = Seq::empty();
    let mut i: usize = 0;
    proof {
        crate::ast::lemma_terms_view_len(t.arguments@);
        assert(argsv.skip(0) =~= argsv);
        assert(values_view(evaled_args@) =~= Seq::<ValueView>::empty());
        assert(lines_view(out@) =~= lines_view(pre) + acc);
        assert(eval_args_spec(env, argsv, fuel as nat) == args_prepend(
            values_view(evaled_args@),
            acc,
            eval_args_spec(env, argsv.skip(0), fuel as nat),
        )) by {
            let rest = eval_args_spec(env, argsv, fuel as nat);
            match rest.result {
                Ok(tail) => {
                    assert(Seq::<ValueView>::empty() + tail =~= tail);
                    assert(Seq::<Seq<char>>::empty() + rest.output =~= rest.output);
                },
                Err(_) => {
                    assert(Seq::<Seq<char>>::empty() + rest.output =~= rest.output);
                },
            }
        };
    }
    while i < t.arguments.len()
        invariant
            i <= t.arguments.len(),
            argsv.len() == t.arguments.len(),
            evaled_args@.len() == i,
            lines_view(out@) == lines_view(pre) + acc,
            eval_args_spec(env, argsv, fuel as nat) == args_prepend(
                values_view(evaled_args@),
                acc,
                eval_args_spec(env, argsv.skip(i as int), fuel as nat),
            ),
            env == context@,
            argsv == t@.arguments,
        decreases t.arguments.len() - i,
    {
        proof {
            lemma_terms_view_index(t.arguments@, i as int);
            assert(argsv.skip(i as int)[0] == argsv[i as int]);
        }
        let ghost head = eval_spec(env, argsv[i as int], fuel as nat);
        match eval_term(context, &*t.arguments[i], fuel, out) {
            Ok(v) => {
                let ghost vals_pre = evaled_args@;
                let ghost acc_pre = acc;
                evaled_args.push(v);
                proof {
                    acc = acc_pre + head.output;
                    assert(argsv.skip(i as int).drop_first() =~= argsv.skip(i + 1));
                    assert(values_view(evaled_args@) =~= values_view(vals_pre) + seq![v@]);
                    assert(lines_view(pre) + acc =~= (lines_view(pre) + acc_pre) + head.output);
                    let rest2 = eval_args_spec(env, argsv.skip(i + 1), fuel as nat);
                    assert(acc_pre + (head.output + rest2.output) =~= acc + rest2.output);
                    match rest2.result {
                        Ok(tail) => {
                            assert((values_view(vals_pre) + seq![v@]) + tail =~= values_view(
                                vals_pre,
                            ) + (seq![v@] + tail));
                        },
                        Err(_) => {},
                    }
                }
                i = i + 1;
            },
            Err(e) => {
                proof {
                    assert(lines_view(pre) + (acc + head.output) =~= (lines_view(pre) + acc)
                        + head.output);
                }
                return Err(e);
            },
        }
    }
    proof {
        assert(argsv.skip(argsv.len() as int) =~= Seq::<TermView>::empty());
        assert(values_view(evaled_args@) + Seq::<ValueView>::empty() =~= values_view(
            evaled_args@,
        ));
        assert(acc + Seq::<Seq<char>>::empty() =~= acc);
    }

    // Bind each parameter, in order, on top of the caller's context.
    let ghost paramsv = fv.parameters;
    let ghost valsv = values_view(evaled_args@);
    let mut call_context: Context = context.clone();
    let mut j: usize = 0;
    proof {
        assert(paramsv.skip(0) =~= paramsv);
        assert(valsv.skip(0) =~= valsv);
    }
    while j < func.parameters.len()
        invariant
            j <= func.parameters.len(),
            func.parameters.len() <= evaled_args.len(),
            paramsv == fv.parameters,
            paramsv.len() == func.parameters.len(),
            valsv == values_view(evaled_args@),
            valsv.len() == evaled_args.len(),
            forall|m: int| 0 <= m < paramsv.len() ==> paramsv[m] == func.parameters@[m]@,
            bind_params(context@, paramsv, valsv) == bind_params(
                call_context@,
                paramsv.skip(j as int),
                valsv.skip(j as int),
            ),
        decreases func.parameters.len() - j,
    {
        let parameter = &func.parameters[j];
        let argument = &evaled_args[j];
        call_context = call_context.add(parameter.text.as_str(), argument);
        proof {
            assert(paramsv.skip(j as int)[0] == paramsv[j as int]);
            assert(valsv.skip(j as int)[0] == valsv[j as int]);
            assert(paramsv.skip(j as int).drop_first() =~= paramsv.skip(j + 1));
            assert(valsv.skip(j as int).drop_first() =~= valsv.skip(j + 1));
        }
        j = j + 1;
    }
    proof {
        assert(paramsv.skip(paramsv.len() as int) =~= Seq::<crate::ast::VariableView>::empty());
    }

    if fuel == 0 {
        return Err(EvalError::RecursionLimit);
    }
    let r = eval_term(&call_context, &*func.value, fuel - 1, out);
    proof {
        let bo = eval_spec(call_context@, *fv.value, (fuel - 1) as nat);
        assert(lines_view(pre) + (acc + bo.output) =~= (lines_view(pre) + acc) + bo.output);
    }
    r
}

} // verus!
