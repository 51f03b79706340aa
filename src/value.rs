//! Runtime values, their mathematical model, equality and text form.
use std::rc::Rc;

use vstd::prelude::*;

use crate::ast::Function;
use crate::scope::Scope;

verus! {

/// What evaluating a term yields.
#[derive(Debug)]
pub enum Val {
    Int(i32),
    Bool(bool),
    Str(String),
    Tuple((Box<Val>, Box<Val>)),
    Closure { fun: Rc<Function>, env: Scope },
}

/// The model of a `Val`: text as a sequence of characters and a closure's
/// scope as the index of its frame.
pub enum Value {
    Int(i32),
    Bool(bool),
    Str(Seq<char>),
    Tuple(Box<Value>, Box<Value>),
    Closure { fun: Rc<Function>, env: usize },
}

pub open spec fn model(v: Val) -> Value
    decreases v,
{
    match v {
        Val::Int(i) => Value::Int(i),
        Val::Bool(b) => Value::Bool(b),
        Val::Str(s) => Value::Str(s@),
        Val::Tuple(p) => Value::Tuple(Box::new(model(*p.0)), Box::new(model(*p.1))),
        Val::Closure { fun, env } => Value::Closure { fun, env: env.frame },
    }
}

impl View for Val {
    type V = Value;

    open spec fn view(&self) -> Value {
        model(*self)
    }
}

/// Structural equality: integers, booleans, strings and pairs of such are
/// compared by content; a closure equals nothing, not even itself.
pub open spec fn same(a: Value, b: Value) -> bool
    decreases a,
{
    match a {
        Value::Int(x) => b matches Value::Int(y) && x == y,
        Value::Bool(x) => b matches Value::Bool(y) && x == y,
        Value::Str(x) => b matches Value::Str(y) && x == y,
        Value::Tuple(a1, a2) => match b {
            Value::Tuple(b1, b2) => same(*a1, *b1) && same(*a2, *b2),
            _ => false,
        },
        Value::Closure { .. } => false,
    }
}

/// The character of a decimal digit `d < 10`.
pub open spec fn digit(d: int) -> char {
    if d == 0 {
        '0'
    } else if d == 1 {
        '1'
    } else if d == 2 {
        '2'
    } else if d == 3 {
        '3'
    } else if d == 4 {
        '4'
    } else if d == 5 {
        '5'
    } else if d == 6 {
        '6'
    } else if d == 7 {
        '7'
    } else if d == 8 {
        '8'
    } else {
        '9'
    }
}

/// The decimal digits of `n`, most significant first, without leading zeros.
pub open spec fn digits(n: nat) -> Seq<char>
    decreases n,
{
    if n < 10 {
        seq![digit(n as int)]
    } else {
        digits(n / 10) + seq![digit((n % 10) as int)]
    }
}

/// `n` written in decimal, with a leading `-` when negative.
pub open spec fn decimal(n: int) -> Seq<char> {
    if n < 0 {
        seq!['-'] + digits((-n) as nat)
    } else {
        digits(n as nat)
    }
}

/// The text that `print` writes for a value.
pub open spec fn text_of(v: Value) -> Seq<char>
    decreases v,
{
    match v {
        Value::Int(i) => decimal(i as int),
        Value::Bool(b) => if b {
            seq!['t', 'r', 'u', 'e']
        } else {
            seq!['f', 'a', 'l', 's', 'e']
        },
        Value::Str(s) => s,
        Value::Tuple(a, b) => seq!['('] + text_of(*a) + seq![',', ' '] + text_of(*b) + seq![')'],
        Value::Closure { .. } => seq!['<', '#', 'c', 'l', 'o', 's', 'u', 'r', 'e', '>'],
    }
}

fn digit_str(d: u32) -> (r: &'static str)
    requires
        d < 10,
    ensures
        r@ == seq![digit(d as int)],
{
    let r = if d == 0 {
        "0"
    } else if d == 1 {
        "1"
    } else if d == 2 {
        "2"
    } else if d == 3 {
        "3"
    } else if d == 4 {
        "4"
    } else if d == 5 {
        "5"
    } else if d == 6 {
        "6"
    } else if d == 7 {
        "7"
    } else if d == 8 {
        "8"
    } else {
        "9"
    };
    proof {
        reveal_strlit("0");
        reveal_strlit("1");
        reveal_strlit("2");
        reveal_strlit("3");
        reveal_strlit("4");
        reveal_strlit("5");
        reveal_strlit("6");
        reveal_strlit("7");
        reveal_strlit("8");
        reveal_strlit("9");
    }
    assert(r@ =~= seq![digit(d as int)]);
    r
}

fn digits_string(n: u32) -> (r: String)
    ensures
        r@ == digits(n as nat),
    decreases n,
{
    if n < 10 {
        String::from_str(digit_str(n))
    } else {
        let mut s = digits_string(n / 10);
        s.append(digit_str(n % 10));
        s
    }
}

/// Writes `n` in decimal.
pub fn decimal_string(n: i32) -> (r: String)
    ensures
        r@ == decimal(n as int),
{
    if n < 0 {
        let m = (0i64 - n as i64) as u32;
        let mut s = String::from_str("-");
        proof {
            reveal_strlit("-");
        }
        s.append(digits_string(m).as_str());
        assert(s@ =~= decimal(n as int));
        s
    } else {
        digits_string(n as u32)
    }
}

fn equal_vals(a: &Val, b: &Val) -> (r: bool)
    ensures
        r == same(a@, b@),
    decreases a,
{
    match a {
        Val::Int(x) => match b {
            Val::Int(y) => *x == *y,
            _ => false,
        },
        Val::Bool(x) => match b {
            Val::Bool(y) => *x == *y,
            _ => false,
        },
        Val::Str(x) => match b {
            Val::Str(y) => *x == *y,
            _ => false,
        },
        Val::Tuple(x) => match b {
            Val::Tuple(y) => equal_vals(&x.0, &y.0) && equal_vals(&x.1, &y.1),
            _ => false,
        },
        Val::Closure { .. } => false,
    }
}

impl PartialEq for Val {
    fn eq(&self, other: &Val) -> (r: bool) {
        equal_vals(self, other)
    }
}

impl vstd::std_specs::cmp::PartialEqSpecImpl for Val {
    open spec fn obeys_eq_spec() -> bool {
        true
    }

    open spec fn eq_spec(&self, other: &Val) -> bool {
        same(self@, other@)
    }
}

impl Val {
    /// The text that `print` writes for this value.
    pub fn to_string(&self) -> (r: String)
        ensures
            r@ == text_of(self@),
        decreases self,
    {
        match self {
            Val::Int(i) => decimal_string(*i),
            Val::Bool(b) => {
                proof {
                    reveal_strlit("true");
                    reveal_strlit("false");
                }
                let s = if *b {
                    String::from_str("true")
                } else {
                    String::from_str("false")
                };
                assert(s@ =~= text_of(self@));
                s
            },
            Val::Str(s) => s.clone(),
            Val::Tuple(p) => {
                proof {
                    reveal_strlit("(");
                    reveal_strlit(", ");
                    reveal_strlit(")");
                }
                let mut s = String::from_str("(");
                s.append(Val::to_string(&p.0).as_str());
                s.append(", ");
                s.append(Val::to_string(&p.1).as_str());
                s.append(")");
                assert(s@ =~= text_of(self@));
                s
            },
            Val::Closure { .. } => {
                proof {
                    reveal_strlit("<#closure>");
                }
                let s = String::from_str("<#closure>");
                assert(s@ =~= text_of(self@));
                s
            },
        }
    }

    /// A copy that keeps each closure's scope as it is.
    pub(crate) fn replica(&self) -> (r: Val)
        ensures
            r@ == self@,
        decreases self,
    {
        match self {
            Val::Int(i) => Val::Int(*i),
            Val::Bool(b) => Val::Bool(*b),
            Val::Str(s) => Val::Str(s.clone()),
            Val::Tuple(p) => Val::Tuple((Box::new(p.0.replica()), Box::new(p.1.replica()))),
            Val::Closure { fun, env } => Val::Closure { fun: Rc::clone(fun), env: *env },
        }
    }
}

} // verus!
