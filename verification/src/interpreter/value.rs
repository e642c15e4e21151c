//! Runtime values and their rendering.
//!
//! A value is the result of evaluating a term: an integer, a string, a
//! boolean, a pair of values, or a function (its parameter list and body,
//! with no captured environment). Rendering turns a value into the single
//! line of text that `print` writes: integers in decimal, booleans as
//! `true`/`false`, strings as their raw contents, tuples as `(a, b)`, and
//! functions as the token `#function`.

use vstd::prelude::*;

use crate::ast::{Function, FunctionView, function_view};

verus! {

/// A runtime value.
#[derive(Debug)]
pub enum Value {
    String(String),
    Integer(i32),
    Tuple(Box<Value>, Box<Value>),
    Boolean(bool),
    Function(Function),
}

/// The ghost mirror of a runtime value.
pub enum ValueView {
    String(Seq<char>),
    Integer(i32),
    Tuple(Box<ValueView>, Box<ValueView>),
    Boolean(bool),
    Function(FunctionView),
}

/// The ghost mirror of a value.
pub open spec fn value_view(v: Value) -> ValueView
    decreases v,
{
    match v {
        Value::String(s) => ValueView::String(s@),
        Value::Integer(i) => ValueView::Integer(i),
        Value::Tuple(a, b) => ValueView::Tuple(
            Box::new(value_view(*a)),
            Box::new(value_view(*b)),
        ),
        Value::Boolean(b) => ValueView::Boolean(b),
        Value::Function(f) => ValueView::Function(function_view(f)),
    }
}

impl View for Value {
    type V = ValueView;

    open spec fn view(&self) -> ValueView {
        value_view(*self)
    }
}

/// The runtime type of a value, as named in error messages.
#[derive(Debug, Clone, Copy, PartialEq, Eq, Structural)]
pub enum ValueKind {
    Tuple,
    String,
    Boolean,
    Integer,
    Function,
}

/// The runtime type of a value.
pub open spec fn kind_of(v: ValueView) -> ValueKind {
    match v {
        ValueView::Tuple(..) => ValueKind::Tuple,
        ValueView::String(..) => ValueKind::String,
        ValueView::Boolean(..) => ValueKind::Boolean,
        ValueView::Integer(..) => ValueKind::Integer,
        ValueView::Function(..) => ValueKind::Function,
    }
}

/// The name of a runtime type, as it appears in error messages.
pub open spec fn kind_name(k: ValueKind) -> Seq<char> {
    match k {
        ValueKind::Tuple => "tuple"@,
        ValueKind::String => "string"@,
        ValueKind::Boolean => "boolean"@,
        ValueKind::Integer => "integer"@,
        ValueKind::Function => "function"@,
    }
}

impl Value {
    /// The runtime type of this value.
    pub fn kind(&self) -> (k: ValueKind)
        ensures
            k == kind_of(self@),
    {
        match self {
            Value::Tuple(..) => ValueKind::Tuple,
            Value::String(..) => ValueKind::String,
            Value::Boolean(..) => ValueKind::Boolean,
            Value::Integer(..) => ValueKind::Integer,
            Value::Function(..) => ValueKind::Function,
        }
    }

    /// The name of this value's runtime type.
    pub fn type_label(&self) -> (r: &str)
        ensures
            r@ == kind_name(kind_of(self@)),
    {
        match self {
            Value::Tuple(..) => "tuple",
            Value::String(..) => "string",
            Value::Boolean(..) => "boolean",
            Value::Integer(..) => "integer",
            Value::Function(..) => "function",
        }
    }
}

impl Clone for Value {
    fn clone(&self) -> (r: Self)
        ensures
            r@ == self@,
        decreases *self,
    {
        match self {
            Value::String(s) => Value::String(s.clone()),
            Value::Integer(i) => Value::Integer(*i),
            Value::Tuple(a, b) => Value::Tuple(
                Box::new((&**a).clone()),
                Box::new((&**b).clone()),
            ),
            Value::Boolean(b) => Value::Boolean(*b),
            Value::Function(f) => Value::Function(f.clone()),
        }
    }
}

// ---------------------------------------------------------------------------
// Rendering.
// ---------------------------------------------------------------------------

/// The decimal digit character for `d`.
pub open spec fn dec_digit(d: int) -> char {
    if d == 0 {
        '0'
    } else if d == 1 {
        '1'
    } else if d == 2 {
        '2'
    } else if d == 3 {
        '3'
    } else if d == 4 {
        '4'
    } else if d == 5 {
        '5'
    } else if d == 6 {
        '6'
    } else if d == 7 {
        '7'
    } else if d == 8 {
        '8'
    } else {
        '9'
    }
}

/// The decimal digits of a non-negative integer, most significant first.
pub open spec fn dec_rep(n: int) -> Seq<char>
    recommends
        n >= 0,
    decreases n,
{
    if n < 10 {
        seq![dec_digit(n)]
    } else {
        dec_rep(n / 10).push(dec_digit(n % 10))
    }
}

/// The decimal rendering of a signed integer: a minus sign for negative
/// values, then the digits of its magnitude.
pub open spec fn int_rep(i: int) -> Seq<char> {
    if i < 0 {
        seq!['-'] + dec_rep(-i)
    } else {
        dec_rep(i)
    }
}

/// The single line of text that a value renders to.
pub open spec fn render_view(v: ValueView) -> Seq<char>
    decreases v,
{
    match v {
        ValueView::Integer(i) => int_rep(i as int),
        ValueView::Boolean(b) => if b {
            "true"@
        } else {
            "false"@
        },
        ValueView::String(s) => s,
        ValueView::Tuple(a, b) => seq!['('] + render_view(*a) + ", "@ + render_view(*b)
            + seq![')'],
        ValueView::Function(..) => "#function"@,
    }
}

/// The decimal digit character for `d`, as a string slice.
fn digit_str(d: u32) -> (s: &'static str)
    requires
        d < 10,
    ensures
        s@ == seq![dec_digit(d as int)],
{
    let r: &'static str = match d {
        0 => "0",
        1 => "1",
        2 => "2",
        3 => "3",
        4 => "4",
        5 => "5",
        6 => "6",
        7 => "7",
        8 => "8",
        _ => "9",
    };
    proof {
        reveal_strlit("0");
        reveal_strlit("1");
        reveal_strlit("2");
        reveal_strlit("3");
        reveal_strlit("4");
        reveal_strlit("5");
        reveal_strlit("6");
        reveal_strlit("7");
        reveal_strlit("8");
        reveal_strlit("9");
        assert(r@ =~= seq![dec_digit(d as int)]);
    }
    r
}

/// The decimal digits of `n`, most significant first.
fn render_u32(n: u32) -> (s: String)
    ensures
        s@ == dec_rep(n as int),
    decreases n,
{
    if n < 10 {
        let s = digit_str(n).to_owned();
        s
    } else {
        let mut s = render_u32(n / 10);
        s.append(digit_str(n % 10));
        proof {
            assert(dec_rep((n / 10) as int) + seq![dec_digit((n % 10) as int)] =~= dec_rep(
                (n / 10) as int,
            ).push(dec_digit((n % 10) as int)));
        }
        s
    }
}

/// The decimal rendering of `i`.
pub fn render_int(i: i32) -> (s: String)
    ensures
        s@ == int_rep(i as int),
{
    if i >= 0 {
        render_u32(i as u32)
    } else {
        let wide: i64 = i as i64;
        let magnitude: u32 = (-wide) as u32;
        let mut s = "-".to_owned();
        proof {
            reveal_strlit("-");
            assert("-"@ =~= seq!['-']);
        }
        let digits = render_u32(magnitude);
        s.append(digits.as_str());
        s
    }
}

/// Renders a value to the single line of text that `print` writes for it.
pub fn render_value(v: &Value) -> (s: String)
    ensures
        s@ == render_view(v@),
    decreases *v,
{
    match v {
        Value::Integer(i) => render_int(*i),
        Value::Boolean(b) => {
            if *b {
                "true".to_owned()
            } else {
                "false".to_owned()
            }
        },
        Value::String(s) => s.clone(),
        Value::Tuple(a, b) => {
            let ra = render_value(&**a);
            let rb = render_value(&**b);
            let mut s = "(".to_owned();
            s.append(ra.as_str());
            s.append(", ");
            s.append(rb.as_str());
            s.append(")");
            proof {
                reveal_strlit("(");
                reveal_strlit(")");
                assert("("@ =~= seq!['(']);
                assert(")"@ =~= seq![')']);
            }
            s
        },
        Value::Function(..) => "#function".to_owned(),
    }
}

} // verus!
