//! The annotated syntax tree handed to the evaluator.
use std::rc::Rc;

use vstd::prelude::*;

verus! {

/// A byte range `start..end` in the program's source text.
#[derive(Debug, Clone, Copy, PartialEq, Eq, Structural)]
pub struct Location {
    pub start: usize,
    pub end: usize,
}

/// A parsed program: the name it was read from and its root term.
#[derive(Debug)]
pub struct File {
    pub name: String,
    pub expression: Term,
}

#[derive(Debug)]
pub struct Int {
    pub value: i32,
    pub location: Location,
}

#[derive(Debug)]
pub struct Bool {
    pub value: bool,
    pub location: Location,
}

#[derive(Debug)]
pub struct Str {
    pub value: String,
    pub location: Location,
}

#[derive(Debug)]
pub struct Print {
    pub value: Term,
    pub location: Location,
}

#[derive(Debug)]
pub struct Binary {
    pub rhs: Term,
    pub op: BinaryOp,
    pub lhs: Term,
    pub location: Location,
}

#[derive(Debug, Clone, Copy, PartialEq, Eq, Structural)]
pub enum BinaryOp {
    Add,
    Sub,
    Mul,
    Div,
    Rem,
    Eq,
    Neq,
    Lt,
    Gt,
    Lte,
    Gte,
    And,
    Or,
}

#[derive(Debug)]
pub struct If {
    pub condition: Term,
    pub then_branch: Term,
    pub otherwise: Term,
    pub location: Location,
}

/// A name token: a binding name or a function parameter.
#[derive(Debug)]
pub struct Parameter {
    pub text: String,
    pub location: Location,
}

#[derive(Debug)]
pub struct Let {
    pub name: Parameter,
    pub value: Term,
    pub next: Term,
    pub location: Location,
}

#[derive(Debug)]
pub struct Var {
    pub text: String,
    pub location: Location,
}

#[derive(Debug)]
pub struct Function {
    pub parameters: Vec<Parameter>,
    pub value: Term,
    pub location: Location,
}

#[derive(Debug)]
pub struct Call {
    pub callee: Term,
    pub arguments: Vec<Term>,
    pub location: Location,
}

#[derive(Debug)]
pub struct Tuple {
    pub first: Term,
    pub second: Term,
    pub location: Location,
}

#[derive(Debug)]
pub struct First {
    pub value: Term,
    pub location: Location,
}

#[derive(Debug)]
pub struct Second {
    pub value: Term,
    pub location: Location,
}

/// One node of the syntax tree. A function literal is held behind `Rc` so
/// that a closure shares it with the tree instead of copying it.
#[derive(Debug)]
pub enum Term {
    Int(Int),
    Str(Str),
    Bool(Bool),
    Print(Box<Print>),
    Binary(Box<Binary>),
    If(Box<If>),
    Let(Box<Let>),
    Var(Var),
    Function(Rc<Function>),
    Call(Box<Call>),
    Tuple(Box<Tuple>),
    First(Box<First>),
    Second(Box<Second>),
}

impl Term {
    /// The source range of this node.
    pub open spec fn span(self) -> Location {
        match self {
            Term::Int(t) => t.location,
            Term::Str(t) => t.location,
            Term::Bool(t) => t.location,
            Term::Print(t) => t.location,
            Term::Binary(t) => t.location,
            Term::If(t) => t.location,
            Term::Let(t) => t.location,
            Term::Var(t) => t.location,
            Term::Function(t) => t.location,
            Term::Call(t) => t.location,
            Term::Tuple(t) => t.location,
            Term::First(t) => t.location,
            Term::Second(t) => t.location,
        }
    }

    pub fn location(&self) -> (r: &Location)
        ensures
            *r == self.span(),
    {
        match self {
            Term::Int(t) => &t.location,
            Term::Str(t) => &t.location,
            Term::Bool(t) => &t.location,
            Term::Print(t) => &t.location,
            Term::Binary(t) => &t.location,
            Term::If(t) => &t.location,
            Term::Let(t) => &t.location,
            Term::Var(t) => &t.location,
            Term::Function(t) => &t.location,
            Term::Call(t) => &t.location,
            Term::Tuple(t) => &t.location,
            Term::First(t) => &t.location,
            Term::Second(t) => &t.location,
        }
    }
}

} // verus!
