//! An evaluator for a small, dynamically typed, expression-oriented language:
//! integers, strings, booleans, tuples, first-class functions, let-bindings,
//! conditionals, binary operators, and a print primitive.
//!
//! The `ast` module holds the parsed expression tree; the `interpreter` module
//! evaluates it against an immutable, copy-on-bind environment.

pub mod ast;
pub mod interpreter;
