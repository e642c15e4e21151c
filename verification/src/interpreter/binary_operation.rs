//! The binary-operator semantics table, on already-evaluated operands.
//!
//! Each function agrees with the corresponding operator rule of the model
//! (`sum_spec`, `eq_spec`, ...): integer arithmetic is 32-bit and wraps,
//! `+` concatenates when a string is involved, comparisons order integers,
//! `==`/`!=` compare like-typed values (tuples component-wise), and `&&`/`||`
//! take two booleans. Any other operand pair is a `TypeMismatchInOperator`.

use vstd::prelude::*;

use vstd::arithmetic::div_mod::{
    lemma_div_is_ordered,
    lemma_div_is_ordered_by_denominator,
    lemma_div_nonincreasing,
    lemma_div_pos_is_pos,
    lemma_mod_bound,
};

use crate::ast::{Binary, BinaryOperator, TermView};
use crate::interpreter::Context;
use crate::interpreter::error::EvalError;
use crate::interpreter::eval_term;
use crate::interpreter::semantics::{
    result_matches,
    combine_and,
    eval_post,
    eval_spec,
    lines_view,
    sum_spec,
    sub_spec,
    mul_spec,
    div_spec,
    rem_spec,
    lt_spec,
    lte_spec,
    gt_spec,
    gte_spec,
    eq_spec,
    neq_spec,
    and_spec,
    or_spec,
    trunc_div,
    trunc_rem,
};
use crate::interpreter::value::{Value, ValueView, render_int};

verus! {

/// `+`: adds two integers (wrapping), or concatenates when at least one side
/// is a string and the other renders in decimal.
pub fn binary_operation_sum(lhs_value: &Value, rhs_value: &Value) -> (r: Result<Value, EvalError>)
    ensures
        result_matches(r, sum_spec(lhs_value@, rhs_value@)),
{
    match (lhs_value, rhs_value) {
        (Value::Integer(a), Value::Integer(b)) => Ok(Value::Integer((*a).wrapping_add(*b))),
        (Value::Integer(a), Value::String(s)) => {
            let mut out = render_int(*a);
            out.append(s.as_str());
            Ok(Value::String(out))
        },
        (Value::String(s), Value::Integer(b)) => {
            let mut out = s.clone();
            out.append(render_int(*b).as_str());
            Ok(Value::String(out))
        },
        (Value::String(a), Value::String(b)) => {
            let mut out = a.clone();
            out.append(b.as_str());
            Ok(Value::String(out))
        },
        _ => Err(
            EvalError::TypeMismatchInOperator {
                op: BinaryOperator::Add,
                lhs: lhs_value.kind(),
                rhs: rhs_value.kind(),
            },
        ),
    }
}

/// `-`: subtracts two integers, wrapping.
pub fn binary_operation_sub(lhs_value: &Value, rhs_value: &Value) -> (r: Result<Value, EvalError>)
    ensures
        result_matches(r, sub_spec(lhs_value@, rhs_value@)),
{
    match (lhs_value, rhs_value) {
        (Value::Integer(a), Value::Integer(b)) => Ok(Value::Integer((*a).wrapping_sub(*b))),
        _ => Err(
            EvalError::TypeMismatchInOperator {
                op: BinaryOperator::Sub,
                lhs: lhs_value.kind(),
                rhs: rhs_value.kind(),
            },
        ),
    }
}

/// `*`: multiplies two integers, wrapping.
pub fn binary_operation_mul(lhs_value: &Value, rhs_value: &Value) -> (r: Result<Value, EvalError>)
    ensures
        result_matches(r, mul_spec(lhs_value@, rhs_value@)),
{
    match (lhs_value, rhs_value) {
        (Value::Integer(a), Value::Integer(b)) => Ok(Value::Integer((*a).wrapping_mul(*b))),
        _ => Err(
            EvalError::TypeMismatchInOperator {
                op: BinaryOperator::Mul,
                lhs: lhs_value.kind(),
                rhs: rhs_value.kind(),
            },
        ),
    }
}

/// Truncated division of 32-bit values stays in the 32-bit range, except for
/// the smallest integer divided by minus one; the remainder always stays.
proof fn lemma_trunc_in_range(a: int, b: int)
    requires
        i32::MIN <= a <= i32::MAX,
        i32::MIN <= b <= i32::MAX,
        b != 0,
        !(a == i32::MIN && b == -1),
    ensures
        i32::MIN <= trunc_div(a, b) <= i32::MAX,
        i32::MIN <= trunc_rem(a, b) <= i32::MAX,
{
    if a == 0 {
    } else if a > 0 && b > 0 {
        lemma_div_pos_is_pos(a, b);
        lemma_div_nonincreasing(a, b);
        lemma_mod_bound(a, b);
    } else if a < 0 && b < 0 {
        let x = a * -1;
        let d = b * -1;
        lemma_div_pos_is_pos(x, d);
        lemma_div_nonincreasing(x, d);
        lemma_mod_bound(x, d);
        if d >= 2 {
            lemma_div_is_ordered_by_denominator(x, 2, d);
            lemma_div_is_ordered(x, 0x8000_0000, 2);
        }
    } else if a < 0 {
        let x = a * -1;
        lemma_div_pos_is_pos(x, b);
        lemma_div_nonincreasing(x, b);
        lemma_mod_bound(x, b);
    } else {
        let d = b * -1;
        lemma_div_pos_is_pos(a, d);
        lemma_div_nonincreasing(a, d);
        lemma_mod_bound(a, d);
    }
}

/// `/`: divides two integers, truncating toward zero; a zero divisor is an
/// error, and the one overflowing case wraps.
pub fn binary_operation_div(lhs_value: &Value, rhs_value: &Value) -> (r: Result<Value, EvalError>)
    ensures
        result_matches(r, div_spec(lhs_value@, rhs_value@)),
{
    match (lhs_value, rhs_value) {
        (Value::Integer(a), Value::Integer(b)) => {
            if *b == 0 {
                Err(EvalError::DivisionByZero)
            } else if *a == i32::MIN && *b == -1 {
                Ok(Value::Integer(i32::MIN))
            } else {
                proof {
                    lemma_trunc_in_range(*a as int, *b as int);
                }
                Ok(Value::Integer((*a).checked_div(*b).unwrap()))
            }
        },
        _ => Err(
            EvalError::TypeMismatchInOperator {
                op: BinaryOperator::Div,
                lhs: lhs_value.kind(),
                rhs: rhs_value.kind(),
            },
        ),
    }
}

/// `%`: the remainder of truncated division; its sign follows the dividend.
/// A zero divisor is an error.
pub fn binary_operation_rem(lhs_value: &Value, rhs_value: &Value) -> (r: Result<Value, EvalError>)
    ensures
        result_matches(r, rem_spec(lhs_value@, rhs_value@)),
{
    match (lhs_value, rhs_value) {
        (Value::Integer(a), Value::Integer(b)) => {
            if *b == 0 {
                Err(EvalError::DivisionByZero)
            } else if *a == i32::MIN && *b == -1 {
                Ok(Value::Integer(0))
            } else {
                proof {
                    lemma_trunc_in_range(*a as int, *b as int);
                }
                Ok(Value::Integer((*a).checked_rem(*b).unwrap()))
            }
        },
        _ => Err(
            EvalError::TypeMismatchInOperator {
                op: BinaryOperator::Rem,
                lhs: lhs_value.kind(),
                rhs: rhs_value.kind(),
            },
        ),
    }
}

/// `>`: orders two integers.
pub fn binary_operation_gt(lhs_value: &Value, rhs_value: &Value) -> (r: Result<Value, EvalError>)
    ensures
        result_matches(r, gt_spec(lhs_value@, rhs_value@)),
{
    match (lhs_value, rhs_value) {
        (Value::Integer(a), Value::Integer(b)) => Ok(Value::Boolean(*a > *b)),
        _ => Err(
            EvalError::TypeMismatchInOperator {
                op: BinaryOperator::Gt,
                lhs: lhs_value.kind(),
                rhs: rhs_value.kind(),
            },
        ),
    }
}

/// `>=`: orders two integers.
pub fn binary_operation_gte(lhs_value: &Value, rhs_value: &Value) -> (r: Result<Value, EvalError>)
    ensures
        result_matches(r, gte_spec(lhs_value@, rhs_value@)),
{
    match (lhs_value, rhs_value) {
        (Value::Integer(a), Value::Integer(b)) => Ok(Value::Boolean(*a >= *b)),
        _ => Err(
            EvalError::TypeMismatchInOperator {
                op: BinaryOperator::Gte,
                lhs: lhs_value.kind(),
                rhs: rhs_value.kind(),
            },
        ),
    }
}

/// `<`: orders two integers.
pub fn binary_operation_lt(lhs_value: &Value, rhs_value: &Value) -> (r: Result<Value, EvalError>)
    ensures
        result_matches(r, lt_spec(lhs_value@, rhs_value@)),
{
    match (lhs_value, rhs_value) {
        (Value::Integer(a), Value::Integer(b)) => Ok(Value::Boolean(*a < *b)),
        _ => Err(
            EvalError::TypeMismatchInOperator {
                op: BinaryOperator::Lt,
                lhs: lhs_value.kind(),
                rhs: rhs_value.kind(),
            },
        ),
    }
}

/// `<=`: orders two integers.
pub fn binary_operation_lte(lhs_value: &Value, rhs_value: &Value) -> (r: Result<Value, EvalError>)
    ensures
        result_matches(r, lte_spec(lhs_value@, rhs_value@)),
{
    match (lhs_value, rhs_value) {
        (Value::Integer(a), Value::Integer(b)) => Ok(Value::Boolean(*a <= *b)),
        _ => Err(
            EvalError::TypeMismatchInOperator {
                op: BinaryOperator::Lte,
                lhs: lhs_value.kind(),
                rhs: rhs_value.kind(),
            },
        ),
    }
}

/// The conjunction of two boolean comparison results; any non-boolean
/// component result counts as false.
fn combine_components(x: Value, y: Value) -> (r: Value)
    ensures
        r@ == combine_and(x@, y@),
{
    match (x, y) {
        (Value::Boolean(a), Value::Boolean(b)) => Value::Boolean(a && b),
        _ => Value::Boolean(false),
    }
}

/// `==`: compares two like-typed values; tuples component-wise, combined
/// with logical and. Unlike-typed operands are an error.
pub fn binary_operation_eq(lhs_value: &Value, rhs_value: &Value) -> (r: Result<Value, EvalError>)
    ensures
        result_matches(r, eq_spec(lhs_value@, rhs_value@)),
    decreases *lhs_value,
{
    match (lhs_value, rhs_value) {
        (Value::Integer(a), Value::Integer(b)) => Ok(Value::Boolean(*a == *b)),
        (Value::Boolean(a), Value::Boolean(b)) => Ok(Value::Boolean(*a == *b)),
        (Value::String(a), Value::String(b)) => Ok(Value::Boolean(*a == *b)),
        (Value::Tuple(lhs_first, lhs_second), Value::Tuple(rhs_first, rhs_second)) => {
            match binary_operation_eq(&**lhs_first, &**rhs_first) {
                Err(e) => Err(e),
                Ok(x) => match binary_operation_eq(&**lhs_second, &**rhs_second) {
                    Err(e) => Err(e),
                    Ok(y) => Ok(combine_components(x, y)),
                },
            }
        },
        _ => Err(
            EvalError::TypeMismatchInOperator {
                op: BinaryOperator::Eq,
                lhs: lhs_value.kind(),
                rhs: rhs_value.kind(),
            },
        ),
    }
}

/// `!=`: compares two like-typed values. On tuples the component results are
/// combined with logical and, exactly as `==` combines them — so two tuples
/// that differ in only one component count as not unequal.
pub fn binary_operation_neq(lhs_value: &Value, rhs_value: &Value) -> (r: Result<Value, EvalError>)
    ensures
        result_matches(r, neq_spec(lhs_value@, rhs_value@)),
    decreases *lhs_value,
{
    match (lhs_value, rhs_value) {
        (Value::Integer(a), Value::Integer(b)) => Ok(Value::Boolean(*a != *b)),
        (Value::Boolean(a), Value::Boolean(b)) => Ok(Value::Boolean(*a != *b)),
        (Value::String(a), Value::String(b)) => Ok(Value::Boolean(!(*a == *b))),
        (Value::Tuple(lhs_first, lhs_second), Value::Tuple(rhs_first, rhs_second)) => {
            match binary_operation_neq(&**lhs_first, &**rhs_first) {
                Err(e) => Err(e),
                Ok(x) => match binary_operation_neq(&**lhs_second, &**rhs_second) {
                    Err(e) => Err(e),
                    Ok(y) => Ok(combine_components(x, y)),
                },
            }
        },
        _ => Err(
            EvalError::TypeMismatchInOperator {
                op: BinaryOperator::Neq,
                lhs: lhs_value.kind(),
                rhs: rhs_value.kind(),
            },
        ),
    }
}

/// `&&`: the conjunction of two booleans. Both operands were already
/// evaluated; there is no short-circuiting.
pub fn binary_operation_and(lhs_value: &Value, rhs_value: &Value) -> (r: Result<Value, EvalError>)
    ensures
        result_matches(r, and_spec(lhs_value@, rhs_value@)),
{
    match (lhs_value, rhs_value) {
        (Value::Boolean(a), Value::Boolean(b)) => Ok(Value::Boolean(*a && *b)),
        _ => Err(
            EvalError::TypeMismatchInOperator {
                op: BinaryOperator::And,
                lhs: lhs_value.kind(),
                rhs: rhs_value.kind(),
            },
        ),
    }
}

/// `||`: the disjunction of two booleans. Both operands were already
/// evaluated; there is no short-circuiting.
pub fn binary_operation_or(lhs_value: &Value, rhs_value: &Value) -> (r: Result<Value, EvalError>)
    ensures
        result_matches(r, or_spec(lhs_value@, rhs_value@)),
{
    match (lhs_value, rhs_value) {
        (Value::Boolean(a), Value::Boolean(b)) => Ok(Value::Boolean(*a || *b)),
        _ => Err(
            EvalError::TypeMismatchInOperator {
                op: BinaryOperator::Or,
                lhs: lhs_value.kind(),
                rhs: rhs_value.kind(),
            },
        ),
    }
}

/// `lhs op rhs`: evaluates the left operand, then the right, then applies
/// the operator's rule to the two values.
pub fn binary_operation(context: &Context, t: &Binary, fuel: u64, out: &mut Vec<String>) -> (r:
    Result<Value, EvalError>)
    ensures
        eval_post(eval_spec(context@, TermView::Binary(t@), fuel as nat), old(out)@, final(out)@, r),
    decreases fuel, *t,
{
    let ghost pre = out@;
    let lhs = match eval_term(context, &*t.lhs, fuel, out) {
        Ok(v) => v,
        Err(e) => {
            return Err(e);
        },
    };
    let rhs = match eval_term(context, &*t.rhs, fuel, out) {
        Ok(v) => v,
        Err(e) => {
            proof {
                let lo = eval_spec(context@, *t@.lhs, fuel as nat);
                let ro = eval_spec(context@, *t@.rhs, fuel as nat);
                assert(lines_view(pre) + (lo.output + ro.output) =~= (lines_view(pre) + lo.output)
                    + ro.output);
            }
            return Err(e);
        },
    };
    let r = match t.op {
        BinaryOperator::Add => binary_operation_sum(&lhs, &rhs),
        BinaryOperator::Sub => binary_operation_sub(&lhs, &rhs),
        BinaryOperator::Mul => binary_operation_mul(&lhs, &rhs),
        BinaryOperator::Div => binary_operation_div(&lhs, &rhs),
        BinaryOperator::Rem => binary_operation_rem(&lhs, &rhs),
        BinaryOperator::Eq => binary_operation_eq(&lhs, &rhs),
        BinaryOperator::Neq => binary_operation_neq(&lhs, &rhs),
        BinaryOperator::Gt => binary_operation_gt(&lhs, &rhs),
        BinaryOperator::Gte => binary_operation_gte(&lhs, &rhs),
        BinaryOperator::Lt => binary_operation_lt(&lhs, &rhs),
        BinaryOperator::Lte => binary_operation_lte(&lhs, &rhs),
        BinaryOperator::And => binary_operation_and(&lhs, &rhs),
        BinaryOperator::Or => binary_operation_or(&lhs, &rhs),
    };
    proof {
        let lo = eval_spec(context@, *t@.lhs, fuel as nat);
        let ro = eval_spec(context@, *t@.rhs, fuel as nat);
        assert(lines_view(pre) + (lo.output + ro.output) =~= (lines_view(pre) + lo.output)
            + ro.output);
    }
    r
}

} // verus!
