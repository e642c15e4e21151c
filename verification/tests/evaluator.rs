use caramuru::ast::{
    Binary, BinaryOperator, Boolean, Call, File, First, Function, If, Integer, Let, Location,
    Print, Second, Str, Term, Tuple, Variable,
};
use caramuru::interpreter::error::EvalError;
use caramuru::interpreter::value::Value;
use caramuru::interpreter::{eval, eval_term, Context};

fn loc() -> Location {
    Location { start: 0, end: 0, filename: "test.rinha".to_string() }
}

fn int_lit(value: i32) -> Term {
    Term::Int(Integer { value, location: loc() })
}

fn boolean(value: bool) -> Term {
    Term::Bool(Boolean { value, location: loc() })
}

fn string(value: &str) -> Term {
    Term::Str(Str { value: value.to_string(), location: loc() })
}

fn var(name: &str) -> Term {
    Term::Var(Variable { text: name.to_string(), location: loc() })
}

fn binary(op: BinaryOperator, lhs: Term, rhs: Term) -> Term {
    Term::Binary(Binary { lhs: Box::new(lhs), op, rhs: Box::new(rhs), location: loc() })
}

fn let_in(name: &str, value: Term, next: Term) -> Term {
    Term::Let(Let {
        name: Variable { text: name.to_string(), location: loc() },
        value: Box::new(value),
        location: loc(),
        next: Box::new(next),
    })
}

fn if_else(condition: Term, then_branch: Term, otherwise: Term) -> Term {
    Term::If(If {
        condition: Box::new(condition),
        then_branch: Box::new(then_branch),
        otherwise: Box::new(otherwise),
        location: loc(),
    })
}

fn function(parameters: &[&str], body: Term) -> Term {
    Term::Function(Function {
        parameters: parameters
            .iter()
            .map(|p| Variable { text: p.to_string(), location: loc() })
            .collect(),
        value: Box::new(body),
        location: loc(),
    })
}

fn call(callee: Term, arguments: Vec<Term>) -> Term {
    Term::Call(Call {
        callee: Box::new(callee),
        arguments: arguments.into_iter().map(Box::new).collect(),
        location: loc(),
    })
}

fn print_term(value: Term) -> Term {
    Term::Print(Print { value: Box::new(value), location: loc() })
}

fn pair(first: Term, second: Term) -> Term {
    Term::Tuple(Tuple { first: Box::new(first), second: Box::new(second), location: loc() })
}

fn first_of(value: Term) -> Term {
    Term::First(First { value: Box::new(value), location: loc() })
}

fn second_of(value: Term) -> Term {
    Term::Second(Second { value: Box::new(value), location: loc() })
}

fn run(term: &Term) -> (Result<Value, EvalError>, Vec<String>) {
    let context = Context::new();
    let mut out: Vec<String> = Vec::new();
    let result = eval_term(&context, term, 1000, &mut out);
    (result, out)
}

fn expect_integer(term: &Term, expected: i32) {
    let (result, _) = run(term);
    match result {
        Ok(Value::Integer(n)) => assert_eq!(n, expected),
        other => panic!("expected Integer({expected}), got {other:?}"),
    }
}

fn expect_boolean(term: &Term, expected: bool) {
    let (result, _) = run(term);
    match result {
        Ok(Value::Boolean(b)) => assert_eq!(b, expected),
        other => panic!("expected Boolean({expected}), got {other:?}"),
    }
}

#[test]
fn sequencing_of_lets() {
    // let x = 1; let y = x + 1; y
    let program = let_in(
        "x",
        int_lit(1),
        let_in("y", binary(BinaryOperator::Add, var("x"), int_lit(1)), var("y")),
    );
    expect_integer(&program, 2);
}

#[test]
fn shadowing_rebinds_a_name() {
    let program = let_in("x", int_lit(1), let_in("x", int_lit(2), var("x")));
    expect_integer(&program, 2);
}

#[test]
fn scope_leak_function_sees_caller_bindings() {
    // let y = 10; let f = fn(x) { x + y }; f(5) evaluates to 15: `y` from
    // the call site is visible inside the body.
    let program = let_in(
        "y",
        int_lit(10),
        let_in(
            "f",
            function(&["x"], binary(BinaryOperator::Add, var("x"), var("y"))),
            call(var("f"), vec![int_lit(5)]),
        ),
    );
    expect_integer(&program, 15);
}

#[test]
fn arity_too_few_arguments_fails() {
    let program = let_in(
        "f",
        function(&["a", "b"], binary(BinaryOperator::Add, var("a"), var("b"))),
        call(var("f"), vec![int_lit(1)]),
    );
    let (result, out) = run(&program);
    match result {
        Err(EvalError::ArityMismatch { callee, expected, got }) => {
            assert_eq!(callee, "f");
            assert_eq!(expected, 2);
            assert_eq!(got, 1);
        }
        other => panic!("expected ArityMismatch, got {other:?}"),
    }
    assert!(out.is_empty());
}

#[test]
fn arity_extra_arguments_are_ignored() {
    let program = let_in(
        "f",
        function(&["a", "b"], binary(BinaryOperator::Add, var("a"), var("b"))),
        call(var("f"), vec![int_lit(1), int_lit(2), int_lit(100)]),
    );
    expect_integer(&program, 3);
}

#[test]
fn arity_extra_arguments_are_still_evaluated() {
    // The third argument is evaluated for its side effect, then ignored.
    let program = let_in(
        "f",
        function(&["a", "b"], binary(BinaryOperator::Add, var("a"), var("b"))),
        call(var("f"), vec![int_lit(1), int_lit(2), print_term(string("side"))]),
    );
    let (result, out) = run(&program);
    match result {
        Ok(Value::Integer(n)) => assert_eq!(n, 3),
        other => panic!("expected Integer(3), got {other:?}"),
    }
    assert_eq!(out, vec!["side".to_string()]);
}

#[test]
fn recursion_through_the_call_site_context() {
    // let f = fn(n) { if n == 0 { 0 } else { n + f(n - 1) } }; f(3)
    // works because `f` is bound in the caller's context when the body runs.
    let body = if_else(
        binary(BinaryOperator::Eq, var("n"), int_lit(0)),
        int_lit(0),
        binary(
            BinaryOperator::Add,
            var("n"),
            call(var("f"), vec![binary(BinaryOperator::Sub, var("n"), int_lit(1))]),
        ),
    );
    let program = let_in("f", function(&["n"], body), call(var("f"), vec![int_lit(3)]));
    expect_integer(&program, 6);
}

#[test]
fn invalid_callee_when_callee_is_a_literal() {
    let program = call(int_lit(1), vec![]);
    match run(&program).0 {
        Err(EvalError::InvalidCallee) => {}
        other => panic!("expected InvalidCallee, got {other:?}"),
    }
}

#[test]
fn invalid_callee_when_name_is_not_a_function() {
    let program = let_in("x", int_lit(1), call(var("x"), vec![]));
    match run(&program).0 {
        Err(EvalError::InvalidCallee) => {}
        other => panic!("expected InvalidCallee, got {other:?}"),
    }
}

#[test]
fn undefined_variable_is_reported_by_name() {
    match run(&var("missing")).0 {
        Err(EvalError::UndefinedVariable(name)) => assert_eq!(name, "missing"),
        other => panic!("expected UndefinedVariable, got {other:?}"),
    }
}

#[test]
fn accessors_on_tuples() {
    expect_integer(&first_of(pair(int_lit(1), int_lit(2))), 1);
    expect_integer(&second_of(pair(int_lit(1), int_lit(2))), 2);
}

#[test]
fn first_on_non_tuple_fails() {
    match run(&first_of(int_lit(1))).0 {
        Err(EvalError::NonTupleAccess(_)) => {}
        other => panic!("expected NonTupleAccess, got {other:?}"),
    }
}

#[test]
fn second_on_non_tuple_fails() {
    match run(&second_of(int_lit(1))).0 {
        Err(EvalError::NonTupleAccess(_)) => {}
        other => panic!("expected NonTupleAccess, got {other:?}"),
    }
}

#[test]
fn condition_must_be_boolean_and_no_branch_runs() {
    // if 5 then ... else ...: the condition is an Integer, so the whole
    // expression fails and neither branch's print fires.
    let program = if_else(int_lit(5), print_term(int_lit(1)), print_term(int_lit(2)));
    let (result, out) = run(&program);
    match result {
        Err(EvalError::TypeMismatchInCondition(_)) => {}
        other => panic!("expected TypeMismatchInCondition, got {other:?}"),
    }
    assert!(out.is_empty());
}

#[test]
fn condition_selects_exactly_one_branch() {
    expect_integer(&if_else(boolean(true), int_lit(1), int_lit(2)), 1);
    expect_integer(&if_else(boolean(false), int_lit(1), int_lit(2)), 2);
    let program = if_else(boolean(true), print_term(string("yes")), print_term(string("no")));
    let (_, out) = run(&program);
    assert_eq!(out, vec!["yes".to_string()]);
}

#[test]
fn comparisons_on_integers() {
    expect_boolean(&binary(BinaryOperator::Lt, int_lit(2), int_lit(3)), true);
    expect_boolean(&binary(BinaryOperator::Lt, int_lit(3), int_lit(2)), false);
    expect_boolean(&binary(BinaryOperator::Lte, int_lit(2), int_lit(2)), true);
    expect_boolean(&binary(BinaryOperator::Gt, int_lit(3), int_lit(2)), true);
    expect_boolean(&binary(BinaryOperator::Gte, int_lit(1), int_lit(2)), false);
}

#[test]
fn tuple_equality_is_component_wise() {
    expect_boolean(
        &binary(BinaryOperator::Eq, pair(int_lit(1), int_lit(2)), pair(int_lit(1), int_lit(2))),
        true,
    );
    expect_boolean(
        &binary(BinaryOperator::Eq, pair(int_lit(1), int_lit(2)), pair(int_lit(1), int_lit(3))),
        false,
    );
}

#[test]
fn tuple_inequality_combines_with_and() {
    // Both components must differ for a pair to count as unequal: the
    // component results are combined with logical and, as the rule stands.
    expect_boolean(
        &binary(BinaryOperator::Neq, pair(int_lit(1), int_lit(2)), pair(int_lit(1), int_lit(3))),
        false,
    );
    expect_boolean(
        &binary(BinaryOperator::Neq, pair(int_lit(0), int_lit(0)), pair(int_lit(1), int_lit(1))),
        true,
    );
}

#[test]
fn evaluation_order_is_left_to_right() {
    // The first component of a tuple is evaluated (printing) before the
    // second aborts the evaluation.
    let program = pair(print_term(string("left")), binary(BinaryOperator::Div, int_lit(1), int_lit(0)));
    let (result, out) = run(&program);
    match result {
        Err(EvalError::DivisionByZero) => {}
        other => panic!("expected DivisionByZero, got {other:?}"),
    }
    assert_eq!(out, vec!["left".to_string()]);
}

#[test]
fn fuel_exhaustion_reports_recursion_limit() {
    let program = let_in("f", function(&[], int_lit(1)), call(var("f"), vec![]));
    let context = Context::new();
    let mut out: Vec<String> = Vec::new();
    match eval_term(&context, &program, 0, &mut out) {
        Err(EvalError::RecursionLimit) => {}
        other => panic!("expected RecursionLimit, got {other:?}"),
    }
}

#[test]
fn context_lookup_and_binding() {
    let empty = Context::new();
    assert!(empty.get("x").is_none());
    let bound = empty.add("x", &Value::Integer(7));
    assert!(empty.get("x").is_none());
    match bound.get("x") {
        Some(Value::Integer(n)) => assert_eq!(*n, 7),
        other => panic!("expected Integer(7), got {other:?}"),
    }
    let shadowed = bound.add("x", &Value::Integer(8));
    match shadowed.get("x") {
        Some(Value::Integer(n)) => assert_eq!(*n, 8),
        other => panic!("expected Integer(8), got {other:?}"),
    }
    match bound.get("x") {
        Some(Value::Integer(n)) => assert_eq!(*n, 7),
        other => panic!("expected Integer(7), got {other:?}"),
    }
}

#[test]
fn eval_runs_a_whole_file() {
    let file = File {
        name: "main".to_string(),
        expression: let_in("x", int_lit(1), binary(BinaryOperator::Add, var("x"), int_lit(41))),
        location: loc(),
    };
    assert!(eval(file).is_ok());
    let failing = File {
        name: "main".to_string(),
        expression: var("missing"),
        location: loc(),
    };
    match eval(failing) {
        Err(EvalError::UndefinedVariable(name)) => assert_eq!(name, "missing"),
        other => panic!("expected UndefinedVariable, got {other:?}"),
    }
}
