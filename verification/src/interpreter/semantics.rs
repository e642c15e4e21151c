//! The mathematical model of evaluation.
//!
//! `eval_spec` is a definitional interpreter over the ghost mirror of the
//! tree: given an environment, a term and a recursion allowance, it yields
//! the lines printed and the resulting value or error. Every executable
//! evaluator function is proved to agree with it.
//!
//! Arithmetic is 32-bit signed and wraps on overflow; division and remainder
//! truncate toward zero, fail on a zero divisor, and wrap on the one
//! overflowing case (the smallest integer divided by minus one).

use vstd::prelude::*;

use crate::ast::{BinaryOperator, TermView, VariableView};
use crate::interpreter::error::{Accessor, ErrorView, EvalError};
use crate::interpreter::value::{Value, ValueView, kind_of, render_view, int_rep};

verus! {

/// Whether an executable outcome agrees with a modelled outcome.
pub open spec fn result_matches(r: Result<Value, EvalError>, s: Result<ValueView, ErrorView>) -> bool {
    match r {
        Ok(v) => s == Ok::<ValueView, ErrorView>(v@),
        Err(e) => s == Err::<ValueView, ErrorView>(e@),
    }
}

/// The environment: an immutable mapping from names to values.
pub type EnvView = Map<Seq<char>, ValueView>;

/// The outcome of evaluating one term: the lines printed, in order, and the
/// resulting value or the error that aborted the evaluation.
pub struct EvalOut {
    pub output: Seq<Seq<char>>,
    pub result: Result<ValueView, ErrorView>,
}

/// The outcome of evaluating a list of argument terms, left to right.
pub struct ArgsOut {
    pub output: Seq<Seq<char>>,
    pub result: Result<Seq<ValueView>, ErrorView>,
}

/// The views of the printed lines, in order.
pub open spec fn lines_view(s: Seq<String>) -> Seq<Seq<char>> {
    s.map_values(|x: String| x@)
}

/// The contract of an executable evaluator function: the lines it appended
/// to `post` beyond `pre`, and its result, are exactly those of the modelled
/// outcome `o`.
pub open spec fn eval_post(
    o: EvalOut,
    pre: Seq<String>,
    post: Seq<String>,
    r: Result<Value, EvalError>,
) -> bool {
    &&& lines_view(post) == lines_view(pre) + o.output
    &&& result_matches(r, o.result)
}

/// The outcome of an argument list whose first values and output are already
/// known, continued by `rest`.
pub open spec fn args_prepend(vs: Seq<ValueView>, os: Seq<Seq<char>>, rest: ArgsOut) -> ArgsOut {
    ArgsOut {
        output: os + rest.output,
        result: match rest.result {
            Err(e) => Err(e),
            Ok(tail) => Ok(vs + tail),
        },
    }
}

/// The views of a list of evaluated values, in order.
pub open spec fn values_view(s: Seq<Value>) -> Seq<ValueView> {
    s.map_values(|v: Value| v@)
}

/// The error for an operand pair that an operator does not support.
pub open spec fn mismatch(op: BinaryOperator, l: ValueView, r: ValueView) -> ErrorView {
    ErrorView::TypeMismatchInOperator { op, lhs: kind_of(l), rhs: kind_of(r) }
}

/// Division truncated toward zero.
pub open spec fn trunc_div(a: int, b: int) -> int
    recommends
        b != 0,
{
    if a == 0 {
        0
    } else if a > 0 && b > 0 {
        a / b
    } else if a < 0 && b < 0 {
        (a * -1) / (b * -1)
    } else if a < 0 {
        ((a * -1) / b) * -1
    } else {
        (a / (b * -1)) * -1
    }
}

/// Remainder of division truncated toward zero; its sign follows the
/// dividend.
pub open spec fn trunc_rem(a: int, b: int) -> int
    recommends
        b != 0,
{
    if a == 0 {
        0
    } else if a > 0 && b > 0 {
        a % b
    } else if a < 0 && b < 0 {
        ((a * -1) % (b * -1)) * -1
    } else if a < 0 {
        ((a * -1) % b) * -1
    } else {
        a % (b * -1)
    }
}

/// `+`: integer addition (wrapping), or string concatenation where at least
/// one side is a string and the other is an integer rendered in decimal.
pub open spec fn sum_spec(l: ValueView, r: ValueView) -> Result<ValueView, ErrorView> {
    match (l, r) {
        (ValueView::Integer(a), ValueView::Integer(b)) => Ok(
            ValueView::Integer(a.wrapping_add(b)),
        ),
        (ValueView::Integer(a), ValueView::String(s)) => Ok(
            ValueView::String(int_rep(a as int) + s),
        ),
        (ValueView::String(s), ValueView::Integer(b)) => Ok(
            ValueView::String(s + int_rep(b as int)),
        ),
        (ValueView::String(a), ValueView::String(b)) => Ok(ValueView::String(a + b)),
        _ => Err(mismatch(BinaryOperator::Add, l, r)),
    }
}

/// `-`: integer subtraction, wrapping.
pub open spec fn sub_spec(l: ValueView, r: ValueView) -> Result<ValueView, ErrorView> {
    match (l, r) {
        (ValueView::Integer(a), ValueView::Integer(b)) => Ok(
            ValueView::Integer(a.wrapping_sub(b)),
        ),
        _ => Err(mismatch(BinaryOperator::Sub, l, r)),
    }
}

/// `*`: integer multiplication, wrapping.
pub open spec fn mul_spec(l: ValueView, r: ValueView) -> Result<ValueView, ErrorView> {
    match (l, r) {
        (ValueView::Integer(a), ValueView::Integer(b)) => Ok(
            ValueView::Integer(a.wrapping_mul(b)),
        ),
        _ => Err(mismatch(BinaryOperator::Mul, l, r)),
    }
}

/// `/`: integer division truncated toward zero; a zero divisor is an error,
/// and the one overflowing case wraps.
pub open spec fn div_spec(l: ValueView, r: ValueView) -> Result<ValueView, ErrorView> {
    match (l, r) {
        (ValueView::Integer(a), ValueView::Integer(b)) => if b == 0 {
            Err(ErrorView::DivisionByZero)
        } else if a == i32::MIN && b == -1 {
            Ok(ValueView::Integer(i32::MIN))
        } else {
            Ok(ValueView::Integer(trunc_div(a as int, b as int) as i32))
        },
        _ => Err(mismatch(BinaryOperator::Div, l, r)),
    }
}

/// `%`: integer remainder truncated toward zero; a zero divisor is an error.
pub open spec fn rem_spec(l: ValueView, r: ValueView) -> Result<ValueView, ErrorView> {
    match (l, r) {
        (ValueView::Integer(a), ValueView::Integer(b)) => if b == 0 {
            Err(ErrorView::DivisionByZero)
        } else if a == i32::MIN && b == -1 {
            Ok(ValueView::Integer(0))
        } else {
            Ok(ValueView::Integer(trunc_rem(a as int, b as int) as i32))
        },
        _ => Err(mismatch(BinaryOperator::Rem, l, r)),
    }
}

/// `<`, on integers.
pub open spec fn lt_spec(l: ValueView, r: ValueView) -> Result<ValueView, ErrorView> {
    match (l, r) {
        (ValueView::Integer(a), ValueView::Integer(b)) => Ok(ValueView::Boolean(a < b)),
        _ => Err(mismatch(BinaryOperator::Lt, l, r)),
    }
}

/// `<=`, on integers.
pub open spec fn lte_spec(l: ValueView, r: ValueView) -> Result<ValueView, ErrorView> {
    match (l, r) {
        (ValueView::Integer(a), ValueView::Integer(b)) => Ok(ValueView::Boolean(a <= b)),
        _ => Err(mismatch(BinaryOperator::Lte, l, r)),
    }
}

/// `>`, on integers.
pub open spec fn gt_spec(l: ValueView, r: ValueView) -> Result<ValueView, ErrorView> {
    match (l, r) {
        (ValueView::Integer(a), ValueView::Integer(b)) => Ok(ValueView::Boolean(a > b)),
        _ => Err(mismatch(BinaryOperator::Gt, l, r)),
    }
}

/// `>=`, on integers.
pub open spec fn gte_spec(l: ValueView, r: ValueView) -> Result<ValueView, ErrorView> {
    match (l, r) {
        (ValueView::Integer(a), ValueView::Integer(b)) => Ok(ValueView::Boolean(a >= b)),
        _ => Err(mismatch(BinaryOperator::Gte, l, r)),
    }
}

/// `==`: on integer, boolean and string pairs, value equality; on tuple
/// pairs, component-wise equality combined with logical and; any other pair
/// is an error.
pub open spec fn eq_spec(l: ValueView, r: ValueView) -> Result<ValueView, ErrorView>
    decreases l,
{
    match (l, r) {
        (ValueView::Integer(a), ValueView::Integer(b)) => Ok(ValueView::Boolean(a == b)),
        (ValueView::Boolean(a), ValueView::Boolean(b)) => Ok(ValueView::Boolean(a == b)),
        (ValueView::String(a), ValueView::String(b)) => Ok(ValueView::Boolean(a == b)),
        (ValueView::Tuple(a1, a2), ValueView::Tuple(b1, b2)) => match eq_spec(*a1, *b1) {
            Err(e) => Err(e),
            Ok(x) => match eq_spec(*a2, *b2) {
                Err(e) => Err(e),
                Ok(y) => Ok(combine_and(x, y)),
            },
        },
        _ => Err(mismatch(BinaryOperator::Eq, l, r)),
    }
}

/// `!=`: the component results on tuples are combined with logical and, the
/// same combination as `==` — kept exactly as the behaviour stands, so two
/// tuples differing in only one component count as not unequal.
pub open spec fn neq_spec(l: ValueView, r: ValueView) -> Result<ValueView, ErrorView>
    decreases l,
{
    match (l, r) {
        (ValueView::Integer(a), ValueView::Integer(b)) => Ok(ValueView::Boolean(a != b)),
        (ValueView::Boolean(a), ValueView::Boolean(b)) => Ok(ValueView::Boolean(a != b)),
        (ValueView::String(a), ValueView::String(b)) => Ok(ValueView::Boolean(a != b)),
        (ValueView::Tuple(a1, a2), ValueView::Tuple(b1, b2)) => match neq_spec(*a1, *b1) {
            Err(e) => Err(e),
            Ok(x) => match neq_spec(*a2, *b2) {
                Err(e) => Err(e),
                Ok(y) => Ok(combine_and(x, y)),
            },
        },
        _ => Err(mismatch(BinaryOperator::Neq, l, r)),
    }
}

/// The conjunction of two boolean results of a component-wise comparison;
/// a non-boolean component result yields false.
pub open spec fn combine_and(x: ValueView, y: ValueView) -> ValueView {
    match (x, y) {
        (ValueView::Boolean(a), ValueView::Boolean(b)) => ValueView::Boolean(a && b),
        _ => ValueView::Boolean(false),
    }
}

/// `&&`, on booleans; both operands are always evaluated first.
pub open spec fn and_spec(l: ValueView, r: ValueView) -> Result<ValueView, ErrorView> {
    match (l, r) {
        (ValueView::Boolean(a), ValueView::Boolean(b)) => Ok(ValueView::Boolean(a && b)),
        _ => Err(mismatch(BinaryOperator::And, l, r)),
    }
}

/// `||`, on booleans; both operands are always evaluated first.
pub open spec fn or_spec(l: ValueView, r: ValueView) -> Result<ValueView, ErrorView> {
    match (l, r) {
        (ValueView::Boolean(a), ValueView::Boolean(b)) => Ok(ValueView::Boolean(a || b)),
        _ => Err(mismatch(BinaryOperator::Or, l, r)),
    }
}

/// The semantics table: what an operator yields on two already-evaluated
/// operands.
pub open spec fn apply_binary(op: BinaryOperator, l: ValueView, r: ValueView) -> Result<
    ValueView,
    ErrorView,
> {
    match op {
        BinaryOperator::Add => sum_spec(l, r),
        BinaryOperator::Sub => sub_spec(l, r),
        BinaryOperator::Mul => mul_spec(l, r),
        BinaryOperator::Div => div_spec(l, r),
        BinaryOperator::Rem => rem_spec(l, r),
        BinaryOperator::Eq => eq_spec(l, r),
        BinaryOperator::Neq => neq_spec(l, r),
        BinaryOperator::Gt => gt_spec(l, r),
        BinaryOperator::Gte => gte_spec(l, r),
        BinaryOperator::Lt => lt_spec(l, r),
        BinaryOperator::Lte => lte_spec(l, r),
        BinaryOperator::And => and_spec(l, r),
        BinaryOperator::Or => or_spec(l, r),
    }
}

/// Binds each parameter to its argument, in parameter order, on top of the
/// caller's environment. Only the first `params.len()` values are consumed.
pub open spec fn bind_params(env: EnvView, params: Seq<VariableView>, vals: Seq<ValueView>) -> EnvView
    recommends
        vals.len() >= params.len(),
    decreases params.len(),
{
    if params.len() == 0 {
        env
    } else {
        bind_params(env.insert(params[0].text, vals[0]), params.drop_first(), vals.drop_first())
    }
}

/// Evaluates a term: a pure, fail-fast, depth-first recursion. `fuel` bounds
/// the depth of function calls; each call into a function body consumes one
/// unit, and running out yields `RecursionLimit`.
pub open spec fn eval_spec(env: EnvView, t: TermView, fuel: nat) -> EvalOut
    decreases fuel, t,
{
    match t {
        TermView::Int(n) => EvalOut {
            output: Seq::empty(),
            result: Ok(ValueView::Integer(n.value)),
        },
        TermView::Str(n) => EvalOut { output: Seq::empty(), result: Ok(ValueView::String(n.value)) },
        TermView::Bool(n) => EvalOut {
            output: Seq::empty(),
            result: Ok(ValueView::Boolean(n.value)),
        },
        TermView::Function(f) => EvalOut {
            output: Seq::empty(),
            result: Ok(ValueView::Function(f)),
        },
        TermView::Var(v) => EvalOut {
            output: Seq::empty(),
            result: if env.contains_key(v.text) {
                Ok(env[v.text])
            } else {
                Err(ErrorView::UndefinedVariable(v.text))
            },
        },
        TermView::Tuple(n) => {
            let fst = eval_spec(env, *n.first, fuel);
            match fst.result {
                Err(e) => EvalOut { output: fst.output, result: Err(e) },
                Ok(v1) => {
                    let snd = eval_spec(env, *n.second, fuel);
                    EvalOut {
                        output: fst.output + snd.output,
                        result: match snd.result {
                            Err(e) => Err(e),
                            Ok(v2) => Ok(ValueView::Tuple(Box::new(v1), Box::new(v2))),
                        },
                    }
                },
            }
        },
        TermView::Binary(n) => {
            let lo = eval_spec(env, *n.lhs, fuel);
            match lo.result {
                Err(e) => EvalOut { output: lo.output, result: Err(e) },
                Ok(l) => {
                    let ro = eval_spec(env, *n.rhs, fuel);
                    EvalOut {
                        output: lo.output + ro.output,
                        result: match ro.result {
                            Err(e) => Err(e),
                            Ok(r) => apply_binary(n.op, l, r),
                        },
                    }
                },
            }
        },
        TermView::Let(n) => {
            let vo = eval_spec(env, *n.value, fuel);
            match vo.result {
                Err(e) => EvalOut { output: vo.output, result: Err(e) },
                Ok(v) => {
                    let no = eval_spec(env.insert(n.name.text, v), *n.next, fuel);
                    EvalOut { output: vo.output + no.output, result: no.result }
                },
            }
        },
        TermView::If(n) => {
            let co = eval_spec(env, *n.condition, fuel);
            match co.result {
                Err(e) => EvalOut { output: co.output, result: Err(e) },
                Ok(c) => match c {
                    ValueView::Boolean(b) => {
                        let bo = if b {
                            eval_spec(env, *n.then_branch, fuel)
                        } else {
                            eval_spec(env, *n.otherwise, fuel)
                        };
                        EvalOut { output: co.output + bo.output, result: bo.result }
                    },
                    _ => EvalOut {
                        output: co.output,
                        result: Err(ErrorView::TypeMismatchInCondition(kind_of(c))),
                    },
                },
            }
        },
        TermView::Print(n) => {
            let vo = eval_spec(env, *n.value, fuel);
            match vo.result {
                Err(e) => EvalOut { output: vo.output, result: Err(e) },
                Ok(v) => EvalOut {
                    output: vo.output.push(render_view(v)),
                    result: Ok(ValueView::Boolean(true)),
                },
            }
        },
        TermView::First(n) => {
            let vo = eval_spec(env, *n.value, fuel);
            match vo.result {
                Err(e) => EvalOut { output: vo.output, result: Err(e) },
                Ok(v) => EvalOut {
                    output: vo.output,
                    result: match v {
                        ValueView::Tuple(a, _) => Ok(*a),
                        _ => Err(ErrorView::NonTupleAccess(Accessor::First)),
                    },
                },
            }
        },
        TermView::Second(n) => {
            let vo = eval_spec(env, *n.value, fuel);
            match vo.result {
                Err(e) => EvalOut { output: vo.output, result: Err(e) },
                Ok(v) => EvalOut {
                    output: vo.output,
                    result: match v {
                        ValueView::Tuple(_, b) => Ok(*b),
                        _ => Err(ErrorView::NonTupleAccess(Accessor::Second)),
                    },
                },
            }
        },
        TermView::Call(n) => match *n.callee {
            TermView::Var(cv) => {
                if env.contains_key(cv.text) {
                    match env[cv.text] {
                        ValueView::Function(f) => {
                            if f.parameters.len() > n.arguments.len() {
                                EvalOut {
                                    output: Seq::empty(),
                                    result: Err(
                                        ErrorView::ArityMismatch {
                                            callee: cv.text,
                                            expected: f.parameters.len(),
                                            got: n.arguments.len(),
                                        },
                                    ),
                                }
                            } else {
                                let ao = eval_args_spec(env, n.arguments, fuel);
                                match ao.result {
                                    Err(e) => EvalOut { output: ao.output, result: Err(e) },
                                    Ok(vals) => {
                                        if fuel == 0 {
                                            EvalOut {
                                                output: ao.output,
                                                result: Err(ErrorView::RecursionLimit),
                                            }
                                        } else {
                                            let bo = eval_spec(
                                                bind_params(env, f.parameters, vals),
                                                *f.value,
                                                (fuel - 1) as nat,
                                            );
                                            EvalOut {
                                                output: ao.output + bo.output,
                                                result: bo.result,
                                            }
                                        }
                                    },
                                }
                            }
                        },
                        _ => EvalOut {
                            output: Seq::empty(),
                            result: Err(ErrorView::InvalidCallee),
                        },
                    }
                } else {
                    EvalOut { output: Seq::empty(), result: Err(ErrorView::InvalidCallee) }
                }
            },
            _ => EvalOut { output: Seq::empty(), result: Err(ErrorView::InvalidCallee) },
        },
    }
}

/// Evaluates a list of argument terms, left to right, against one
/// environment, collecting their values.
pub open spec fn eval_args_spec(env: EnvView, args: Seq<TermView>, fuel: nat) -> ArgsOut
    decreases fuel, args,
{
    if args.len() == 0 {
        ArgsOut { output: Seq::empty(), result: Ok(Seq::empty()) }
    } else {
        let head = eval_spec(env, args[0], fuel);
        match head.result {
            Err(e) => ArgsOut { output: head.output, result: Err(e) },
            Ok(v) => {
                let rest = eval_args_spec(env, args.drop_first(), fuel);
                ArgsOut {
                    output: head.output + rest.output,
                    result: match rest.result {
                        Err(e) => Err(e),
                        Ok(vs) => Ok(seq![v] + vs),
                    },
                }
            },
        }
    }
}

} // verus!
