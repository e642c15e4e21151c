//! The parsed expression tree.
//!
//! Every node carries a source location (byte offsets and file name) that the
//! evaluator propagates but never interprets. Each executable node type has a
//! ghost mirror (its view), so that contracts can speak about terms as pure
//! mathematical values.

use vstd::prelude::*;

verus! {

/// A source span: byte offsets into the named source file.
#[derive(Debug)]
pub struct Location {
    pub start: usize,
    pub end: usize,
    pub filename: String,
}

/// A bare piece of source text with its span.
#[derive(Debug)]
pub struct Text {
    pub text: String,
    pub location: Location,
}

/// A variable reference: a name.
#[derive(Debug)]
pub struct Variable {
    pub text: String,
    pub location: Location,
}

/// The binary operators of the language.
#[derive(Debug, Clone, Copy, PartialEq, Eq, Structural)]
pub enum BinaryOperator {
    Eq,
    Lt,
    Or,
    Gt,
    Add,
    Sub,
    Mul,
    Div,
    Rem,
    Neq,
    Lte,
    Gte,
    And,
}

/// `let name = value; next` — a binding followed by its continuation.
#[derive(Debug)]
pub struct Let {
    pub name: Variable,
    pub value: Box<Term>,
    pub location: Location,
    pub next: Box<Term>,
}

/// `lhs op rhs`.
#[derive(Debug)]
pub struct Binary {
    pub lhs: Box<Term>,
    pub op: BinaryOperator,
    pub rhs: Box<Term>,
    pub location: Location,
}

/// `if condition { then_branch } else { otherwise }`.
#[derive(Debug)]
pub struct If {
    pub condition: Box<Term>,
    pub then_branch: Box<Term>,
    pub otherwise: Box<Term>,
    pub location: Location,
}

/// `fn (parameters) { value }` — an anonymous function literal.
#[derive(Debug)]
pub struct Function {
    pub parameters: Vec<Variable>,
    pub value: Box<Term>,
    pub location: Location,
}

/// `callee(arguments)`.
#[derive(Debug)]
pub struct Call {
    pub callee: Box<Term>,
    pub arguments: Vec<Box<Term>>,
    pub location: Location,
}

/// `print(value)`.
#[derive(Debug)]
pub struct Print {
    pub value: Box<Term>,
    pub location: Location,
}

/// `(first, second)` — a pair literal.
#[derive(Debug)]
pub struct Tuple {
    pub first: Box<Term>,
    pub second: Box<Term>,
    pub location: Location,
}

/// `first(value)` — first component of a pair.
#[derive(Debug)]
pub struct First {
    pub value: Box<Term>,
    pub location: Location,
}

/// `second(value)` — second component of a pair.
#[derive(Debug)]
pub struct Second {
    pub value: Box<Term>,
    pub location: Location,
}

/// A boolean literal.
#[derive(Debug)]
pub struct Boolean {
    pub value: bool,
    pub location: Location,
}

/// A string literal.
#[derive(Debug)]
pub struct Str {
    pub value: String,
    pub location: Location,
}

/// An integer literal (fixed-width, 32-bit signed).
#[derive(Debug)]
pub struct Integer {
    pub value: i32,
    pub location: Location,
}

/// A node of the expression tree: the closed set of syntactic forms.
#[derive(Debug)]
pub enum Term {
    If(If),
    Str(Str),
    Let(Let),
    Call(Call),
    First(First),
    Int(Integer),
    Print(Print),
    Tuple(Tuple),
    Var(Variable),
    Bool(Boolean),
    Second(Second),
    Binary(Binary),
    Function(Function),
}

/// A whole parsed program: its file name and root expression.
#[derive(Debug)]
pub struct File {
    pub name: String,
    pub expression: Term,
    pub location: Location,
}

// ---------------------------------------------------------------------------
// Ghost mirrors of the tree, used as the views of the types above.
// ---------------------------------------------------------------------------

pub struct LocationView {
    pub start: nat,
    pub end: nat,
    pub filename: Seq<char>,
}

pub struct TextView {
    pub text: Seq<char>,
    pub location: LocationView,
}

pub struct VariableView {
    pub text: Seq<char>,
    pub location: LocationView,
}

pub struct LetView {
    pub name: VariableView,
    pub value: Box<TermView>,
    pub location: LocationView,
    pub next: Box<TermView>,
}

pub struct BinaryView {
    pub lhs: Box<TermView>,
    pub op: BinaryOperator,
    pub rhs: Box<TermView>,
    pub location: LocationView,
}

pub struct IfView {
    pub condition: Box<TermView>,
    pub then_branch: Box<TermView>,
    pub otherwise: Box<TermView>,
    pub location: LocationView,
}

pub struct FunctionView {
    pub parameters: Seq<VariableView>,
    pub value: Box<TermView>,
    pub location: LocationView,
}

pub struct CallView {
    pub callee: Box<TermView>,
    pub arguments: Seq<TermView>,
    pub location: LocationView,
}

pub struct PrintView {
    pub value: Box<TermView>,
    pub location: LocationView,
}

pub struct TupleView {
    pub first: Box<TermView>,
    pub second: Box<TermView>,
    pub location: LocationView,
}

pub struct FirstView {
    pub value: Box<TermView>,
    pub location: LocationView,
}

pub struct SecondView {
    pub value: Box<TermView>,
    pub location: LocationView,
}

pub struct BooleanView {
    pub value: bool,
    pub location: LocationView,
}

pub struct StrView {
    pub value: Seq<char>,
    pub location: LocationView,
}

pub struct IntegerView {
    pub value: i32,
    pub location: LocationView,
}

pub enum TermView {
    If(IfView),
    Str(StrView),
    Let(LetView),
    Call(CallView),
    First(FirstView),
    Int(IntegerView),
    Print(PrintView),
    Tuple(TupleView),
    Var(VariableView),
    Bool(BooleanView),
    Second(SecondView),
    Binary(BinaryView),
    Function(FunctionView),
}

pub struct FileView {
    pub name: Seq<char>,
    pub expression: TermView,
    pub location: LocationView,
}

// ---------------------------------------------------------------------------
// View functions.
// ---------------------------------------------------------------------------

impl View for Location {
    type V = LocationView;

    open spec fn view(&self) -> LocationView {
        LocationView { start: self.start as nat, end: self.end as nat, filename: self.filename@ }
    }
}

impl View for Text {
    type V = TextView;

    open spec fn view(&self) -> TextView {
        TextView { text: self.text@, location: self.location@ }
    }
}

impl View for Variable {
    type V = VariableView;

    open spec fn view(&self) -> VariableView {
        VariableView { text: self.text@, location: self.location@ }
    }
}

/// The views of a parameter list, in order.
pub open spec fn vars_view(s: Seq<Variable>) -> Seq<VariableView> {
    s.map_values(|v: Variable| v@)
}

/// The views of an argument list, in order.
pub open spec fn terms_view(s: Seq<Box<Term>>) -> Seq<TermView>
    decreases s,
{
    if s.len() == 0 {
        Seq::empty()
    } else {
        terms_view(s.drop_last()).push(term_view(*s.last()))
    }
}

/// A term list and its view have the same length, and the view of the list
/// holds the views of its elements, in order.
pub proof fn lemma_terms_view_index(s: Seq<Box<Term>>, i: int)
    requires
        0 <= i < s.len(),
    ensures
        terms_view(s).len() == s.len(),
        terms_view(s)[i] == term_view(*s[i]),
    decreases s.len(),
{
    lemma_terms_view_len(s);
    if i < s.len() - 1 {
        lemma_terms_view_index(s.drop_last(), i);
        assert(s.drop_last()[i] == s[i]);
    }
}

/// A term list and its view have the same length.
pub proof fn lemma_terms_view_len(s: Seq<Box<Term>>)
    ensures
        terms_view(s).len() == s.len(),
    decreases s.len(),
{
    if s.len() > 0 {
        lemma_terms_view_len(s.drop_last());
    }
}

/// The ghost mirror of a function literal.
pub open spec fn function_view(f: Function) -> FunctionView
    decreases f,
{
    FunctionView {
        parameters: vars_view(f.parameters@),
        value: Box::new(term_view(*f.value)),
        location: f.location@,
    }
}

/// The ghost mirror of a term.
pub open spec fn term_view(t: Term) -> TermView
    decreases t,
{
    match t {
        Term::If(n) => TermView::If(
            IfView {
                condition: Box::new(term_view(*n.condition)),
                then_branch: Box::new(term_view(*n.then_branch)),
                otherwise: Box::new(term_view(*n.otherwise)),
                location: n.location@,
            },
        ),
        Term::Str(n) => TermView::Str(StrView { value: n.value@, location: n.location@ }),
        Term::Let(n) => TermView::Let(
            LetView {
                name: n.name@,
                value: Box::new(term_view(*n.value)),
                location: n.location@,
                next: Box::new(term_view(*n.next)),
            },
        ),
        Term::Call(n) => TermView::Call(
            CallView {
                callee: Box::new(term_view(*n.callee)),
                arguments: terms_view(n.arguments@),
                location: n.location@,
            },
        ),
        Term::First(n) => TermView::First(
            FirstView { value: Box::new(term_view(*n.value)), location: n.location@ },
        ),
        Term::Int(n) => TermView::Int(IntegerView { value: n.value, location: n.location@ }),
        Term::Print(n) => TermView::Print(
            PrintView { value: Box::new(term_view(*n.value)), location: n.location@ },
        ),
        Term::Tuple(n) => TermView::Tuple(
            TupleView {
                first: Box::new(term_view(*n.first)),
                second: Box::new(term_view(*n.second)),
                location: n.location@,
            },
        ),
        Term::Var(n) => TermView::Var(n@),
        Term::Bool(n) => TermView::Bool(BooleanView { value: n.value, location: n.location@ }),
        Term::Second(n) => TermView::Second(
            SecondView { value: Box::new(term_view(*n.value)), location: n.location@ },
        ),
        Term::Binary(n) => TermView::Binary(
            BinaryView {
                lhs: Box::new(term_view(*n.lhs)),
                op: n.op,
                rhs: Box::new(term_view(*n.rhs)),
                location: n.location@,
            },
        ),
        Term::Function(n) => TermView::Function(function_view(n)),
    }
}

impl View for Term {
    type V = TermView;

    open spec fn view(&self) -> TermView {
        term_view(*self)
    }
}

impl View for Let {
    type V = LetView;

    open spec fn view(&self) -> LetView {
        LetView {
            name: self.name@,
            value: Box::new(term_view(*self.value)),
            location: self.location@,
            next: Box::new(term_view(*self.next)),
        }
    }
}

impl View for Binary {
    type V = BinaryView;

    open spec fn view(&self) -> BinaryView {
        BinaryView {
            lhs: Box::new(term_view(*self.lhs)),
            op: self.op,
            rhs: Box::new(term_view(*self.rhs)),
            location: self.location@,
        }
    }
}

impl View for If {
    type V = IfView;

    open spec fn view(&self) -> IfView {
        IfView {
            condition: Box::new(term_view(*self.condition)),
            then_branch: Box::new(term_view(*self.then_branch)),
            otherwise: Box::new(term_view(*self.otherwise)),
            location: self.location@,
        }
    }
}

impl View for Function {
    type V = FunctionView;

    open spec fn view(&self) -> FunctionView {
        function_view(*self)
    }
}

impl View for Call {
    type V = CallView;

    open spec fn view(&self) -> CallView {
        CallView {
            callee: Box::new(term_view(*self.callee)),
            arguments: terms_view(self.arguments@),
            location: self.location@,
        }
    }
}

impl View for Print {
    type V = PrintView;

    open spec fn view(&self) -> PrintView {
        PrintView { value: Box::new(term_view(*self.value)), location: self.location@ }
    }
}

impl View for Tuple {
    type V = TupleView;

    open spec fn view(&self) -> TupleView {
        TupleView {
            first: Box::new(term_view(*self.first)),
            second: Box::new(term_view(*self.second)),
            location: self.location@,
        }
    }
}

impl View for First {
    type V = FirstView;

    open spec fn view(&self) -> FirstView {
        FirstView { value: Box::new(term_view(*self.value)), location: self.location@ }
    }
}

impl View for Second {
    type V = SecondView;

    open spec fn view(&self) -> SecondView {
        SecondView { value: Box::new(term_view(*self.value)), location: self.location@ }
    }
}

impl View for Boolean {
    type V = BooleanView;

    open spec fn view(&self) -> BooleanView {
        BooleanView { value: self.value, location: self.location@ }
    }
}

impl View for Str {
    type V = StrView;

    open spec fn view(&self) -> StrView {
        StrView { value: self.value@, location: self.location@ }
    }
}

impl View for Integer {
    type V = IntegerView;

    open spec fn view(&self) -> IntegerView {
        IntegerView { value: self.value, location: self.location@ }
    }
}

impl View for File {
    type V = FileView;

    open spec fn view(&self) -> FileView {
        FileView { name: self.name@, expression: self.expression@, location: self.location@ }
    }
}

// ---------------------------------------------------------------------------
// Cloning. A clone of a node is equal to the node itself.
// ---------------------------------------------------------------------------

impl Clone for Location {
    fn clone(&self) -> (r: Self)
        ensures
            r == *self,
    {
        Location { start: self.start, end: self.end, filename: self.filename.clone() }
    }
}

impl Clone for Text {
    fn clone(&self) -> (r: Self)
        ensures
            r == *self,
    {
        Text { text: self.text.clone(), location: self.location.clone() }
    }
}

impl Clone for Variable {
    fn clone(&self) -> (r: Self)
        ensures
            r == *self,
    {
        Variable { text: self.text.clone(), location: self.location.clone() }
    }
}

impl Clone for Let {
    fn clone(&self) -> (r: Self)
        ensures
            r@ == self@,
        decreases *self,
    {
        Let {
            name: self.name.clone(),
            value: Box::new((&*self.value).clone()),
            location: self.location.clone(),
            next: Box::new((&*self.next).clone()),
        }
    }
}

impl Clone for Binary {
    fn clone(&self) -> (r: Self)
        ensures
            r@ == self@,
        decreases *self,
    {
        Binary {
            lhs: Box::new((&*self.lhs).clone()),
            op: self.op,
            rhs: Box::new((&*self.rhs).clone()),
            location: self.location.clone(),
        }
    }
}

impl Clone for If {
    fn clone(&self) -> (r: Self)
        ensures
            r@ == self@,
        decreases *self,
    {
        If {
            condition: Box::new((&*self.condition).clone()),
            then_branch: Box::new((&*self.then_branch).clone()),
            otherwise: Box::new((&*self.otherwise).clone()),
            location: self.location.clone(),
        }
    }
}

impl Clone for Function {
    fn clone(&self) -> (r: Self)
        ensures
            r@ == self@,
        decreases *self,
    {
        let mut parameters: Vec<Variable> = Vec::new();
        let mut i: usize = 0;
        while i < self.parameters.len()
            invariant
                i <= self.parameters.len(),
                parameters@ == self.parameters@.take(i as int),
            decreases self.parameters.len() - i,
        {
            parameters.push(self.parameters[i].clone());
            proof {
                assert(parameters@ =~= self.parameters@.take(i + 1));
            }
            i = i + 1;
        }
        proof {
            assert(parameters@ =~= self.parameters@);
        }
        Function {
            parameters,
            value: Box::new((&*self.value).clone()),
            location: self.location.clone(),
        }
    }
}

impl Clone for Call {
    fn clone(&self) -> (r: Self)
        ensures
            r@ == self@,
        decreases *self,
    {
        let mut arguments: Vec<Box<Term>> = Vec::new();
        let mut i: usize = 0;
        while i < self.arguments.len()
            invariant
                i <= self.arguments.len(),
                arguments@.len() == i,
                terms_view(arguments@) == terms_view(self.arguments@.take(i as int)),
            decreases self.arguments.len() - i,
        {
            let ghost pre = arguments@;
            arguments.push(Box::new((&*self.arguments[i]).clone()));
            proof {
                assert(arguments@.drop_last() =~= pre);
                assert(self.arguments@.take(i + 1).drop_last() =~= self.arguments@.take(i as int));
                assert(self.arguments@.take(i + 1).last() == self.arguments@[i as int]);
            }
            i = i + 1;
        }
        proof {
            assert(self.arguments@.take(self.arguments@.len() as int) =~= self.arguments@);
        }
        Call {
            callee: Box::new((&*self.callee).clone()),
            arguments,
            location: self.location.clone(),
        }
    }
}

impl Clone for Print {
    fn clone(&self) -> (r: Self)
        ensures
            r@ == self@,
        decreases *self,
    {
        Print { value: Box::new((&*self.value).clone()), location: self.location.clone() }
    }
}

impl Clone for Tuple {
    fn clone(&self) -> (r: Self)
        ensures
            r@ == self@,
        decreases *self,
    {
        Tuple {
            first: Box::new((&*self.first).clone()),
            second: Box::new((&*self.second).clone()),
            location: self.location.clone(),
        }
    }
}

impl Clone for First {
    fn clone(&self) -> (r: Self)
        ensures
            r@ == self@,
        decreases *self,
    {
        First { value: Box::new((&*self.value).clone()), location: self.location.clone() }
    }
}

impl Clone for Second {
    fn clone(&self) -> (r: Self)
        ensures
            r@ == self@,
        decreases *self,
    {
        Second { value: Box::new((&*self.value).clone()), location: self.location.clone() }
    }
}

impl Clone for Boolean {
    fn clone(&self) -> (r: Self)
        ensures
            r == *self,
    {
        Boolean { value: self.value, location: self.location.clone() }
    }
}

impl Clone for Str {
    fn clone(&self) -> (r: Self)
        ensures
            r == *self,
    {
        Str { value: self.value.clone(), location: self.location.clone() }
    }
}

impl Clone for Integer {
    fn clone(&self) -> (r: Self)
        ensures
            r == *self,
    {
        Integer { value: self.value, location: self.location.clone() }
    }
}

impl Clone for Term {
    fn clone(&self) -> (r: Self)
        ensures
            r@ == self@,
        decreases *self,
    {
        match self {
            Term::If(n) => Term::If(n.clone()),
            Term::Str(n) => Term::Str(n.clone()),
            Term::Let(n) => Term::Let(n.clone()),
            Term::Call(n) => Term::Call(n.clone()),
            Term::First(n) => Term::First(n.clone()),
            Term::Int(n) => Term::Int(n.clone()),
            Term::Print(n) => Term::Print(n.clone()),
            Term::Tuple(n) => Term::Tuple(n.clone()),
            Term::Var(n) => Term::Var(n.clone()),
            Term::Bool(n) => Term::Bool(n.clone()),
            Term::Second(n) => Term::Second(n.clone()),
            Term::Binary(n) => Term::Binary(n.clone()),
            Term::Function(n) => Term::Function(n.clone()),
        }
    }
}

impl Clone for File {
    fn clone(&self) -> (r: Self)
        ensures
            r@ == self@,
    {
        File {
            name: self.name.clone(),
            expression: self.expression.clone(),
            location: self.location.clone(),
        }
    }
}

} // verus!
