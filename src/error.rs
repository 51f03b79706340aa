//! Evaluation failures and the labelled source ranges that report them.
use std::rc::Rc;

use vstd::prelude::*;

use crate::ast::{Function, Location, Var};

verus! {

/// What went wrong, with what each kind needs to point at the source.
#[derive(Debug)]
pub enum ErrorKind {
    /// An operand of the wrong shape (not a pair, not a function, a
    /// condition that is not a boolean).
    ArgumentError,
    DivisionByZero,
    /// The variable reference that names nothing bound.
    UnknowIdentifier(Var),
    InvalidBinaryOperation,
    /// The function called, and the range of the call.
    InvalidNumberOfArguments(Rc<Function>, Location),
}

/// A failed evaluation: a message, the range it is about, and its kind.
#[derive(Debug)]
pub struct RuntimeError {
    pub message: String,
    pub location: Location,
    pub kind: ErrorKind,
}

/// The model of a `RuntimeError`.
pub struct Fault {
    pub message: Seq<char>,
    pub location: Location,
    pub kind: ErrorKind,
}

impl View for RuntimeError {
    type V = Fault;

    open spec fn view(&self) -> Fault {
        Fault { message: self.message@, location: self.location, kind: self.kind }
    }
}

/// A source range and the text shown under it.
#[derive(Debug)]
pub struct Label {
    pub start: usize,
    pub end: usize,
    pub text: String,
}

pub open spec fn unknown_identifier_text() -> Seq<char> {
    "identificador não encontrado"@
}

pub open spec fn division_by_zero_text() -> Seq<char> {
    "divisão por zero"@
}

pub open spec fn invalid_operation_text() -> Seq<char> {
    "operação inválida"@
}

pub open spec fn invalid_arity_text() -> Seq<char> {
    "número de argumentos inválidos"@
}

pub open spec fn supplied_text() -> Seq<char> {
    "parâmetros informados"@
}

pub open spec fn expected_text() -> Seq<char> {
    "argumentos esperados"@
}

/// The range that a function's parameters cover: from the first one's
/// start to the last one's end, or two bytes at the function's start when
/// it has none.
pub open spec fn parameters_span(fun: Function) -> (usize, usize) {
    if fun.parameters@.len() == 0 {
        let s = fun.location.start;
        (s, if s + 2 <= usize::MAX { (s + 2) as usize } else { usize::MAX })
    } else {
        (fun.parameters@[0].location.start, fun.parameters@.last().location.end)
    }
}

/// The labelled ranges that report a failure, as (start, end, text).
pub open spec fn labels_of(e: Fault) -> Seq<(usize, usize, Seq<char>)> {
    match e.kind {
        ErrorKind::UnknowIdentifier(var) => seq![
            (var.location.start, var.location.end, e.message),
        ],
        ErrorKind::InvalidNumberOfArguments(fun, loc) => seq![
            (loc.start, loc.end, supplied_text()),
            (parameters_span(*fun).0, parameters_span(*fun).1, expected_text()),
        ],
        _ => seq![(e.location.start, e.location.end, e.message)],
    }
}

impl RuntimeError {
    /// An operand of the wrong shape, at `location`.
    pub fn new(message: String, location: Location) -> (r: Self)
        ensures
            r@ == (Fault { message: message@, location, kind: ErrorKind::ArgumentError }),
    {
        RuntimeError { message, location, kind: ErrorKind::ArgumentError }
    }

    /// A reference to a name that nothing binds.
    pub fn unknow_identifier(var: Var) -> (r: Self)
        ensures
            r@ == (Fault {
                message: unknown_identifier_text(),
                location: var.location,
                kind: ErrorKind::UnknowIdentifier(var),
            }),
    {
        let location = var.location;
        RuntimeError {
            message: String::from_str("identificador não encontrado"),
            location,
            kind: ErrorKind::UnknowIdentifier(var),
        }
    }

    pub fn division_by_zero(loc: Location) -> (r: Self)
        ensures
            r@ == (Fault {
                message: division_by_zero_text(),
                location: loc,
                kind: ErrorKind::DivisionByZero,
            }),
    {
        RuntimeError {
            message: String::from_str("divisão por zero"),
            location: loc,
            kind: ErrorKind::DivisionByZero,
        }
    }

    /// An operator applied to operands it does not take.
    pub fn invalid_binary_operation(loc: Location) -> (r: Self)
        ensures
            r@ == (Fault {
                message: invalid_operation_text(),
                location: loc,
                kind: ErrorKind::InvalidBinaryOperation,
            }),
    {
        RuntimeError {
            message: String::from_str("operação inválida"),
            location: loc,
            kind: ErrorKind::InvalidBinaryOperation,
        }
    }

    /// A call of `fun` at `loc` with a number of arguments other than its
    /// number of parameters.
    pub fn invalid_number_of_arguments(fun: Rc<Function>, loc: Location) -> (r: Self)
        ensures
            r@ == (Fault {
                message: invalid_arity_text(),
                location: loc,
                kind: ErrorKind::InvalidNumberOfArguments(fun, loc),
            }),
    {
        RuntimeError {
            message: String::from_str("número de argumentos inválidos"),
            location: loc,
            kind: ErrorKind::InvalidNumberOfArguments(fun, loc),
        }
    }

    /// The message, which is what a report without source text shows.
    pub fn to_string(&self) -> (r: String)
        ensures
            r@ == self.message@,
    {
        self.message.clone()
    }

    /// The labelled ranges that a report shows for this failure.
    pub fn labels(&self) -> (r: Vec<Label>)
        ensures
            r@.map_values(|l: Label| (l.start, l.end, l.text@)) == labels_of(self@),
    {
        let mut r: Vec<Label> = Vec::new();
        match &self.kind {
            ErrorKind::UnknowIdentifier(var) => {
                r.push(
                    Label {
                        start: var.location.start,
                        end: var.location.end,
                        text: self.message.clone(),
                    },
                );
            },
            ErrorKind::InvalidNumberOfArguments(fun, loc) => {
                r.push(
                    Label {
                        start: loc.start,
                        end: loc.end,
                        text: String::from_str("parâmetros informados"),
                    },
                );
                let n = fun.parameters.len();
                let (start, end) = if n == 0 {
                    let s = fun.location.start;
                    (s, s.saturating_add(2))
                } else {
                    (fun.parameters[0].location.start, fun.parameters[n - 1].location.end)
                };
                r.push(Label { start, end, text: String::from_str("argumentos esperados") });
            },
            _ => {
                r.push(
                    Label {
                        start: self.location.start,
                        end: self.location.end,
                        text: self.message.clone(),
                    },
                );
            },
        }
        assert(r@.map_values(|l: Label| (l.start, l.end, l.text@)) =~= labels_of(self@));
        r
    }
}

} // verus!
