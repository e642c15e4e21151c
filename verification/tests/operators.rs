use caramuru::ast::{Binary, BinaryOperator, Boolean, Integer, Location, Str, Term};
use caramuru::interpreter::error::EvalError;
use caramuru::interpreter::value::{Value, ValueKind};
use caramuru::interpreter::{eval_term, Context};

fn loc() -> Location {
    Location { start: 0, end: 0, filename: "test.rinha".to_string() }
}

fn int_lit(value: i32) -> Term {
    Term::Int(Integer { value, location: loc() })
}

fn boolean(value: bool) -> Term {
    Term::Bool(Boolean { value, location: loc() })
}

fn string(value: &str) -> Term {
    Term::Str(Str { value: value.to_string(), location: loc() })
}

fn binary(op: BinaryOperator, lhs: Term, rhs: Term) -> Term {
    Term::Binary(Binary { lhs: Box::new(lhs), op, rhs: Box::new(rhs), location: loc() })
}

fn run(term: &Term) -> Result<Value, EvalError> {
    let context = Context::new();
    let mut out: Vec<String> = Vec::new();
    eval_term(&context, term, 1000, &mut out)
}

fn expect_integer(term: &Term, expected: i32) {
    match run(term) {
        Ok(Value::Integer(n)) => assert_eq!(n, expected),
        other => panic!("expected Integer({expected}), got {other:?}"),
    }
}

fn expect_boolean(term: &Term, expected: bool) {
    match run(term) {
        Ok(Value::Boolean(b)) => assert_eq!(b, expected),
        other => panic!("expected Boolean({expected}), got {other:?}"),
    }
}

fn expect_string(term: &Term, expected: &str) {
    match run(term) {
        Ok(Value::String(s)) => assert_eq!(s, expected),
        other => panic!("expected String({expected:?}), got {other:?}"),
    }
}

#[test]
fn addition_of_integers() {
    expect_integer(&binary(BinaryOperator::Add, int_lit(2), int_lit(3)), 5);
    expect_integer(&binary(BinaryOperator::Add, int_lit(-2), int_lit(3)), 1);
}

#[test]
fn addition_wraps_on_overflow() {
    // The arithmetic is 32-bit signed and wraps.
    expect_integer(&binary(BinaryOperator::Add, int_lit(i32::MAX), int_lit(1)), i32::MIN);
    expect_integer(&binary(BinaryOperator::Sub, int_lit(i32::MIN), int_lit(1)), i32::MAX);
    expect_integer(&binary(BinaryOperator::Mul, int_lit(1 << 30), int_lit(4)), 0);
}

#[test]
fn addition_concatenates_strings() {
    expect_string(&binary(BinaryOperator::Add, string("ab"), string("cd")), "abcd");
    expect_string(&binary(BinaryOperator::Add, int_lit(1), string("b")), "1b");
    expect_string(&binary(BinaryOperator::Add, string("a"), int_lit(2)), "a2");
    expect_string(&binary(BinaryOperator::Add, int_lit(-12), string("!")), "-12!");
}

#[test]
fn subtraction_and_multiplication() {
    expect_integer(&binary(BinaryOperator::Sub, int_lit(5), int_lit(3)), 2);
    expect_integer(&binary(BinaryOperator::Mul, int_lit(4), int_lit(3)), 12);
}

#[test]
fn division_truncates_toward_zero() {
    expect_integer(&binary(BinaryOperator::Div, int_lit(7), int_lit(2)), 3);
    expect_integer(&binary(BinaryOperator::Div, int_lit(-7), int_lit(2)), -3);
    expect_integer(&binary(BinaryOperator::Div, int_lit(7), int_lit(-2)), -3);
    expect_integer(&binary(BinaryOperator::Div, int_lit(-7), int_lit(-2)), 3);
}

#[test]
fn remainder_follows_the_dividend() {
    expect_integer(&binary(BinaryOperator::Rem, int_lit(7), int_lit(2)), 1);
    expect_integer(&binary(BinaryOperator::Rem, int_lit(-7), int_lit(2)), -1);
    expect_integer(&binary(BinaryOperator::Rem, int_lit(7), int_lit(-2)), 1);
    expect_integer(&binary(BinaryOperator::Rem, int_lit(-7), int_lit(-2)), -1);
}

#[test]
fn division_by_zero_is_an_error() {
    match run(&binary(BinaryOperator::Div, int_lit(1), int_lit(0))) {
        Err(EvalError::DivisionByZero) => {}
        other => panic!("expected DivisionByZero, got {other:?}"),
    }
    match run(&binary(BinaryOperator::Rem, int_lit(1), int_lit(0))) {
        Err(EvalError::DivisionByZero) => {}
        other => panic!("expected DivisionByZero, got {other:?}"),
    }
}

#[test]
fn division_overflow_wraps() {
    expect_integer(&binary(BinaryOperator::Div, int_lit(i32::MIN), int_lit(-1)), i32::MIN);
    expect_integer(&binary(BinaryOperator::Rem, int_lit(i32::MIN), int_lit(-1)), 0);
}

#[test]
fn equality_on_scalars() {
    expect_boolean(&binary(BinaryOperator::Eq, int_lit(1), int_lit(1)), true);
    expect_boolean(&binary(BinaryOperator::Eq, int_lit(1), int_lit(2)), false);
    expect_boolean(&binary(BinaryOperator::Eq, boolean(true), boolean(true)), true);
    expect_boolean(&binary(BinaryOperator::Eq, string("a"), string("a")), true);
    expect_boolean(&binary(BinaryOperator::Eq, string("a"), string("b")), false);
}

#[test]
fn inequality_on_scalars() {
    expect_boolean(&binary(BinaryOperator::Neq, int_lit(1), int_lit(2)), true);
    expect_boolean(&binary(BinaryOperator::Neq, int_lit(1), int_lit(1)), false);
    expect_boolean(&binary(BinaryOperator::Neq, string("a"), string("b")), true);
}

#[test]
fn equality_across_types_is_an_error() {
    match run(&binary(BinaryOperator::Eq, int_lit(1), boolean(true))) {
        Err(EvalError::TypeMismatchInOperator { op, lhs, rhs }) => {
            assert!(matches!(op, BinaryOperator::Eq));
            assert!(matches!(lhs, ValueKind::Integer));
            assert!(matches!(rhs, ValueKind::Boolean));
        }
        other => panic!("expected TypeMismatchInOperator, got {other:?}"),
    }
}

#[test]
fn addition_of_booleans_is_an_error() {
    match run(&binary(BinaryOperator::Add, boolean(true), boolean(false))) {
        Err(EvalError::TypeMismatchInOperator { op, lhs, rhs }) => {
            assert!(matches!(op, BinaryOperator::Add));
            assert!(matches!(lhs, ValueKind::Boolean));
            assert!(matches!(rhs, ValueKind::Boolean));
        }
        other => panic!("expected TypeMismatchInOperator, got {other:?}"),
    }
}

#[test]
fn boolean_connectives() {
    expect_boolean(&binary(BinaryOperator::And, boolean(true), boolean(false)), false);
    expect_boolean(&binary(BinaryOperator::And, boolean(true), boolean(true)), true);
    expect_boolean(&binary(BinaryOperator::Or, boolean(true), boolean(false)), true);
    expect_boolean(&binary(BinaryOperator::Or, boolean(false), boolean(false)), false);
}

#[test]
fn connectives_evaluate_both_operands() {
    // There is no short-circuiting: the failing right operand aborts the
    // evaluation even though the left one already decides a disjunction.
    let program = binary(
        BinaryOperator::Or,
        boolean(true),
        binary(BinaryOperator::Div, int_lit(1), int_lit(0)),
    );
    match run(&program) {
        Err(EvalError::DivisionByZero) => {}
        other => panic!("expected DivisionByZero, got {other:?}"),
    }
}

#[test]
fn comparison_on_strings_is_an_error() {
    match run(&binary(BinaryOperator::Lt, string("a"), string("b"))) {
        Err(EvalError::TypeMismatchInOperator { op, lhs, rhs }) => {
            assert!(matches!(op, BinaryOperator::Lt));
            assert!(matches!(lhs, ValueKind::String));
            assert!(matches!(rhs, ValueKind::String));
        }
        other => panic!("expected TypeMismatchInOperator, got {other:?}"),
    }
}
