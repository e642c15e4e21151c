use caramuru::ast::{
    Boolean, Function, Integer, Location, Print, Str, Term, Tuple, Variable,
};
use caramuru::interpreter::error::EvalError;
use caramuru::interpreter::value::{render_int, render_value, Value};
use caramuru::interpreter::{eval_term, Context};

fn loc() -> Location {
    Location { start: 0, end: 0, filename: "test.rinha".to_string() }
}

fn int_lit(value: i32) -> Term {
    Term::Int(Integer { value, location: loc() })
}

fn boolean(value: bool) -> Term {
    Term::Bool(Boolean { value, location: loc() })
}

fn string(value: &str) -> Term {
    Term::Str(Str { value: value.to_string(), location: loc() })
}

fn print_term(value: Term) -> Term {
    Term::Print(Print { value: Box::new(value), location: loc() })
}

fn pair(first: Term, second: Term) -> Term {
    Term::Tuple(Tuple { first: Box::new(first), second: Box::new(second), location: loc() })
}

fn run(term: &Term) -> (Result<Value, EvalError>, Vec<String>) {
    let context = Context::new();
    let mut out: Vec<String> = Vec::new();
    let result = eval_term(&context, term, 1000, &mut out);
    (result, out)
}

fn printed(term: Term) -> Vec<String> {
    let (result, out) = run(&print_term(term));
    match result {
        Ok(Value::Boolean(true)) => {}
        other => panic!("print should yield Boolean(true), got {other:?}"),
    }
    out
}

#[test]
fn print_renders_integers_in_decimal() {
    assert_eq!(printed(int_lit(0)), vec!["0".to_string()]);
    assert_eq!(printed(int_lit(42)), vec!["42".to_string()]);
    assert_eq!(printed(int_lit(-5)), vec!["-5".to_string()]);
    assert_eq!(printed(int_lit(i32::MAX)), vec!["2147483647".to_string()]);
    assert_eq!(printed(int_lit(i32::MIN)), vec!["-2147483648".to_string()]);
}

#[test]
fn print_renders_booleans_and_strings() {
    assert_eq!(printed(boolean(true)), vec!["true".to_string()]);
    assert_eq!(printed(boolean(false)), vec!["false".to_string()]);
    assert_eq!(printed(string("hello")), vec!["hello".to_string()]);
    assert_eq!(printed(string("")), vec!["".to_string()]);
}

#[test]
fn print_renders_tuples_recursively() {
    assert_eq!(printed(pair(int_lit(1), int_lit(2))), vec!["(1, 2)".to_string()]);
    assert_eq!(
        printed(pair(int_lit(1), pair(boolean(true), string("x")))),
        vec!["(1, (true, x))".to_string()]
    );
}

#[test]
fn print_renders_functions_as_a_token() {
    let f = Term::Function(Function {
        parameters: vec![Variable { text: "x".to_string(), location: loc() }],
        value: Box::new(int_lit(1)),
        location: loc(),
    });
    assert_eq!(printed(f), vec!["#function".to_string()]);
}

#[test]
fn print_lines_appear_in_evaluation_order() {
    let program = pair(print_term(int_lit(1)), print_term(int_lit(2)));
    let (_, out) = run(&program);
    assert_eq!(out, vec!["1".to_string(), "2".to_string()]);
}

#[test]
fn render_int_matches_decimal_notation() {
    assert_eq!(render_int(7), "7");
    assert_eq!(render_int(-100), "-100");
    assert_eq!(render_int(1000000), "1000000");
}

#[test]
fn render_value_spells_each_shape() {
    assert_eq!(render_value(&Value::Integer(-3)), "-3");
    assert_eq!(render_value(&Value::Boolean(true)), "true");
    assert_eq!(render_value(&Value::String("s".to_string())), "s");
    assert_eq!(
        render_value(&Value::Tuple(
            Box::new(Value::Integer(1)),
            Box::new(Value::String("a".to_string()))
        )),
        "(1, a)"
    );
}

#[test]
fn type_labels_name_each_shape() {
    assert_eq!(Value::Integer(1).type_label(), "integer");
    assert_eq!(Value::Boolean(true).type_label(), "boolean");
    assert_eq!(Value::String(String::new()).type_label(), "string");
    assert_eq!(
        Value::Tuple(Box::new(Value::Integer(1)), Box::new(Value::Integer(2))).type_label(),
        "tuple"
    );
    let f = Function { parameters: vec![], value: Box::new(int_lit(9)), location: loc() };
    assert_eq!(Value::Function(f).type_label(), "function");
}
