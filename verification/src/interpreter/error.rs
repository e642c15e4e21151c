//! Evaluation errors.
//!
//! Every error is terminal: the first error anywhere in an evaluation aborts
//! the whole run and is surfaced to the caller unchanged.

use vstd::prelude::*;

use crate::ast::BinaryOperator;
use crate::interpreter::value::ValueKind;

verus! {

/// Which tuple accessor was applied.
#[derive(Debug, Clone, Copy, PartialEq, Eq, Structural)]
pub enum Accessor {
    First,
    Second,
}

/// An evaluation error.
#[derive(Debug)]
pub enum EvalError {
    /// A variable is not bound in the current context.
    UndefinedVariable(String),
    /// The callee of a call is not a variable bound to a function value.
    InvalidCallee,
    /// The named value exists but is not a function. Reachable only if the
    /// callee resolution rule is relaxed; with the rule as it stands, callee
    /// resolution fails first with `InvalidCallee`.
    NotCallable(String),
    /// A call supplied fewer arguments than the function declares parameters.
    ArityMismatch { callee: String, expected: usize, got: usize },
    /// The operand types are unsupported for the operator.
    TypeMismatchInOperator { op: BinaryOperator, lhs: ValueKind, rhs: ValueKind },
    /// The condition of `if` evaluated to a non-boolean value.
    TypeMismatchInCondition(ValueKind),
    /// `first` or `second` was applied to a non-tuple value.
    NonTupleAccess(Accessor),
    /// Integer division or remainder with a zero divisor.
    DivisionByZero,
    /// The evaluation exceeded its recursion allowance (the analogue of
    /// exhausting the host call stack).
    RecursionLimit,
}

/// The ghost mirror of an evaluation error.
pub enum ErrorView {
    UndefinedVariable(Seq<char>),
    InvalidCallee,
    NotCallable(Seq<char>),
    ArityMismatch { callee: Seq<char>, expected: nat, got: nat },
    TypeMismatchInOperator { op: BinaryOperator, lhs: ValueKind, rhs: ValueKind },
    TypeMismatchInCondition(ValueKind),
    NonTupleAccess(Accessor),
    DivisionByZero,
    RecursionLimit,
}

/// The ghost mirror of an evaluation error.
pub open spec fn error_view(e: EvalError) -> ErrorView {
    match e {
        EvalError::UndefinedVariable(name) => ErrorView::UndefinedVariable(name@),
        EvalError::InvalidCallee => ErrorView::InvalidCallee,
        EvalError::NotCallable(name) => ErrorView::NotCallable(name@),
        EvalError::ArityMismatch { callee, expected, got } => ErrorView::ArityMismatch {
            callee: callee@,
            expected: expected as nat,
            got: got as nat,
        },
        EvalError::TypeMismatchInOperator { op, lhs, rhs } => ErrorView::TypeMismatchInOperator {
            op,
            lhs,
            rhs,
        },
        EvalError::TypeMismatchInCondition(kind) => ErrorView::TypeMismatchInCondition(kind),
        EvalError::NonTupleAccess(accessor) => ErrorView::NonTupleAccess(accessor),
        EvalError::DivisionByZero => ErrorView::DivisionByZero,
        EvalError::RecursionLimit => ErrorView::RecursionLimit,
    }
}

impl View for EvalError {
    type V = ErrorView;

    open spec fn view(&self) -> ErrorView {
        error_view(*self)
    }
}

} // verus!
