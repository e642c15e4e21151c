//! The evaluator: runtime values, the environment, and the recursive
//! expression-to-value interpreter.

pub mod binary_operation;
pub mod call;
pub mod condition;
pub mod error;
pub mod laws;
pub mod print;
pub mod semantics;
pub mod tuple;
pub mod value;
pub mod variable;

use vstd::prelude::*;

use crate::ast::{File, Term, TermView};
use crate::interpreter::binary_operation::binary_operation;
use crate::interpreter::call::call_function;
use crate::interpreter::condition::do_if;
use crate::interpreter::error::{ErrorView, EvalError};
use crate::interpreter::print::print;
use crate::interpreter::semantics::{EnvView, eval_post, eval_spec, lines_view};
use crate::interpreter::value::{Value, ValueView, value_view};
use crate::interpreter::variable::{assign_variable, get_variable_value};

verus! {

/// The environment: a persistent, immutable mapping from names to values.
/// Binding a name yields a new environment and leaves the old one unchanged,
/// so independent evaluation branches never observe each other's bindings.
pub struct Context {
    inner: Vec<(String, Value)>,
}

/// The mapping that a binding list denotes: later entries shadow earlier
/// ones.
spec fn ctx_view(s: Seq<(String, Value)>) -> EnvView
    decreases s.len(),
{
    if s.len() == 0 {
        Map::empty()
    } else {
        ctx_view(s.drop_last()).insert(s.last().0@, value_view(s.last().1))
    }
}

impl View for Context {
    type V = EnvView;

    closed spec fn view(&self) -> EnvView {
        ctx_view(self.inner@)
    }
}

/// Entries at positions `i` and beyond whose names all differ from `k` do
/// not affect the mapping at `k`.
proof fn lemma_ctx_view_prefix(s: Seq<(String, Value)>, k: Seq<char>, i: int)
    requires
        0 <= i <= s.len(),
        forall|j: int| i <= j < s.len() ==> s[j].0@ != k,
    ensures
        ctx_view(s).contains_key(k) == ctx_view(s.take(i)).contains_key(k),
        ctx_view(s).contains_key(k) ==> ctx_view(s)[k] == ctx_view(s.take(i))[k],
    decreases s.len() - i,
{
    if i < s.len() {
        let t = s.drop_last();
        assert(s.take(i) =~= t.take(i));
        lemma_ctx_view_prefix(t, k, i);
    } else {
        assert(s.take(i) =~= s);
    }
}

impl Context {
    /// The empty environment.
    pub fn new() -> (c: Self)
        ensures
            c@ == Map::<Seq<char>, ValueView>::empty(),
    {
        Context { inner: Vec::new() }
    }

    /// Looks `key` up: the most recently bound value under that name, if any.
    pub fn get(&self, key: &str) -> (r: Option<&Value>)
        ensures
            match r {
                Some(v) => self@.contains_key(key@) && v@ == self@[key@],
                None => !self@.contains_key(key@),
            },
    {
        let k: String = key.to_owned();
        let mut j: usize = self.inner.len();
        while j > 0
            invariant
                j <= self.inner.len(),
                k@ == key@,
                forall|m: int| j <= m < self.inner@.len() ==> self.inner@[m].0@ != key@,
            decreases j,
        {
            j = j - 1;
            let entry = &self.inner[j];
            if entry.0 == k {
                proof {
                    lemma_ctx_view_prefix(self.inner@, key@, j + 1);
                    assert(self.inner@.take(j + 1).drop_last() =~= self.inner@.take(j as int));
                    assert(self.inner@.take(j + 1).last() == self.inner@[j as int]);
                }
                return Some(&entry.1);
            }
        }
        proof {
            lemma_ctx_view_prefix(self.inner@, key@, 0);
            assert(self.inner@.take(0) =~= Seq::<(String, Value)>::empty());
        }
        None
    }

    /// A new environment: this one, with `key` bound to `value`. The
    /// receiver is left unchanged.
    pub fn add(&self, key: &str, value: &Value) -> (r: Self)
        ensures
            r@ == self@.insert(key@, value@),
    {
        let mut new = self.clone();
        let ghost pre = new.inner@;
        new.inner.push((key.to_owned(), value.clone()));
        proof {
            assert(new.inner@.drop_last() =~= pre);
        }
        new
    }
}

impl Clone for Context {
    fn clone(&self) -> (r: Self)
        ensures
            r@ == self@,
    {
        let mut inner: Vec<(String, Value)> = Vec::new();
        let mut i: usize = 0;
        while i < self.inner.len()
            invariant
                i <= self.inner.len(),
                inner@.len() == i,
                ctx_view(inner@) == ctx_view(self.inner@.take(i as int)),
            decreases self.inner.len() - i,
        {
            let ghost pre = inner@;
            let entry = &self.inner[i];
            inner.push((entry.0.clone(), entry.1.clone()));
            proof {
                assert(inner@.drop_last() =~= pre);
                assert(self.inner@.take(i + 1).drop_last() =~= self.inner@.take(i as int));
                assert(self.inner@.take(i + 1).last() == self.inner@[i as int]);
            }
            i = i + 1;
        }
        proof {
            assert(self.inner@.take(self.inner@.len() as int) =~= self.inner@);
        }
        Context { inner }
    }
}

/// The recursion allowance that `eval` grants a run: the depth of nested
/// function calls can never reach it in practice, so exceeding it stands for
/// exhausting the host call stack.
pub const EVAL_FUEL: u64 = u64::MAX;

/// Evaluates one term in a context: the single recursive dispatcher that
/// routes each syntactic form to its rule. The lines printed during the
/// evaluation are appended to `out`, in order; the result, the lines, and
/// every error agree exactly with the model (`eval_spec`).
pub fn eval_term(context: &Context, term: &Term, fuel: u64, out: &mut Vec<String>) -> (r: Result<
    Value,
    EvalError,
>)
    ensures
        eval_post(eval_spec(context@, term@, fuel as nat), old(out)@, final(out)@, r),
    decreases fuel, *term,
{
    let ghost pre = out@;
    match term {
        Term::If(t) => do_if(context, t, fuel, out),
        Term::First(t) => tuple::first(context, t, fuel, out),
        Term::Second(t) => tuple::second(context, t, fuel, out),
        Term::Print(t) => print(context, t, fuel, out),
        Term::Call(t) => call_function(context, t, fuel, out),
        Term::Let(t) => assign_variable(context, t, fuel, out),
        Term::Var(t) => {
            let r = get_variable_value(context, t);
            proof {
                assert(lines_view(out@) =~= lines_view(pre) + Seq::<Seq<char>>::empty());
            }
            r
        },
        Term::Binary(t) => binary_operation(context, t, fuel, out),
        Term::Bool(t) => {
            proof {
                assert(lines_view(out@) =~= lines_view(pre) + Seq::<Seq<char>>::empty());
            }
            Ok(Value::Boolean(t.value))
        },
        Term::Function(t) => {
            proof {
                assert(lines_view(out@) =~= lines_view(pre) + Seq::<Seq<char>>::empty());
            }
            Ok(Value::Function(t.clone()))
        },
        Term::Int(t) => {
            proof {
                assert(lines_view(out@) =~= lines_view(pre) + Seq::<Seq<char>>::empty());
            }
            Ok(Value::Integer(t.value))
        },
        Term::Str(t) => {
            proof {
                assert(lines_view(out@) =~= lines_view(pre) + Seq::<Seq<char>>::empty());
            }
            Ok(Value::String(t.value.clone()))
        },
        Term::Tuple(t) => {
            match eval_term(context, &*t.first, fuel, out) {
                Err(e) => Err(e),
                Ok(first_value) => {
                    let r = match eval_term(context, &*t.second, fuel, out) {
                        Err(e) => Err(e),
                        Ok(second_value) => Ok(
                            Value::Tuple(Box::new(first_value), Box::new(second_value)),
                        ),
                    };
                    proof {
                        let fo = eval_spec(context@, *term@->Tuple_0.first, fuel as nat);
                        let so = eval_spec(context@, *term@->Tuple_0.second, fuel as nat);
                        assert(lines_view(pre) + (fo.output + so.output) =~= (lines_view(pre)
                            + fo.output) + so.output);
                    }
                    r
                },
            }
        },
    }
}

/// Evaluates a whole program: its root expression against the empty
/// environment, discarding the final value. The printed lines are the only
/// externally observable effect; the result is `Ok` exactly when the model
/// yields a value.
pub fn eval(file: File) -> (r: Result<(), EvalError>)
    ensures
        ({
            let o = eval_spec(Map::empty(), file.expression@, EVAL_FUEL as nat);
            match r {
                Ok(_) => o.result is Ok,
                Err(e) => o.result == Err::<ValueView, ErrorView>(e@),
            }
        }),
{
    let context = Context::new();
    let mut out: Vec<String> = Vec::new();
    match eval_term(&context, &file.expression, EVAL_FUEL, &mut out) {
        Ok(_) => Ok(()),
        Err(e) => Err(e),
    }
}

} // verus!
