//! What the binary operators do to two values.
use vstd::prelude::*;
use vstd::wrapping::i32_specs::{signed_crop, wrapping_add, wrapping_mul, wrapping_sub};

use crate::ast::{BinaryOp, Location};
use crate::error::{
    division_by_zero_text, invalid_operation_text, ErrorKind, Fault, RuntimeError,
};
use crate::value::{text_of, Val, Value};

verus! {

pub open spec fn abs(a: int) -> int {
    if a < 0 {
        -a
    } else {
        a
    }
}

/// Integer division rounding toward zero (`b != 0`).
pub open spec fn quot(a: int, b: int) -> int {
    if (a < 0) == (b < 0) {
        abs(a) / abs(b)
    } else {
        -(abs(a) / abs(b))
    }
}

/// The remainder that goes with `quot`: it has the sign of `a`.
pub open spec fn rem(a: int, b: int) -> int {
    if a < 0 {
        -(abs(a) % abs(b))
    } else {
        abs(a) % abs(b)
    }
}

pub open spec fn invalid_operation(loc: Location) -> Fault {
    Fault {
        message: invalid_operation_text(),
        location: loc,
        kind: ErrorKind::InvalidBinaryOperation,
    }
}

pub open spec fn division_by_zero(loc: Location) -> Fault {
    Fault { message: division_by_zero_text(), location: loc, kind: ErrorKind::DivisionByZero }
}

/// Both operands are integers.
pub open spec fn both_int(a: Value, b: Value) -> bool {
    a is Int && b is Int
}

pub open spec fn both_bool(a: Value, b: Value) -> bool {
    a is Bool && b is Bool
}

/// The operands can be compared with `==` and `!=`: two integers, two
/// booleans or two strings.
pub open spec fn comparable(a: Value, b: Value) -> bool {
    ||| both_int(a, b)
    ||| both_bool(a, b)
    ||| a is Str && b is Str
}

/// Content equality of two comparable values.
pub open spec fn equal_content(a: Value, b: Value) -> bool {
    match (a, b) {
        (Value::Int(x), Value::Int(y)) => x == y,
        (Value::Bool(x), Value::Bool(y)) => x == y,
        (Value::Str(x), Value::Str(y)) => x == y,
        _ => false,
    }
}

/// The result of `a op b`, the operator written at `loc`. Integer
/// arithmetic wraps around on overflow.
pub open spec fn binary_spec(op: BinaryOp, a: Value, b: Value, loc: Location) -> Result<Value, Fault> {
    match op {
        BinaryOp::Add => if both_int(a, b) {
            Ok(Value::Int(wrapping_add(a->Int_0, b->Int_0)))
        } else {
            Ok(Value::Str(text_of(a) + text_of(b)))
        },
        BinaryOp::Sub => if both_int(a, b) {
            Ok(Value::Int(wrapping_sub(a->Int_0, b->Int_0)))
        } else {
            Err(invalid_operation(loc))
        },
        BinaryOp::Mul => if both_int(a, b) {
            Ok(Value::Int(wrapping_mul(a->Int_0, b->Int_0)))
        } else {
            Err(invalid_operation(loc))
        },
        BinaryOp::Div => if !both_int(a, b) {
            Err(invalid_operation(loc))
        } else if b->Int_0 == 0 {
            Err(division_by_zero(loc))
        } else {
            Ok(Value::Int(signed_crop(quot(a->Int_0 as int, b->Int_0 as int))))
        },
        BinaryOp::Rem => if !both_int(a, b) {
            Err(invalid_operation(loc))
        } else if b->Int_0 == 0 {
            Err(division_by_zero(loc))
        } else {
            Ok(Value::Int(rem(a->Int_0 as int, b->Int_0 as int) as i32))
        },
        BinaryOp::Eq => if comparable(a, b) {
            Ok(Value::Bool(equal_content(a, b)))
        } else {
            Err(invalid_operation(loc))
        },
        BinaryOp::Neq => if comparable(a, b) {
            Ok(Value::Bool(!equal_content(a, b)))
        } else {
            Err(invalid_operation(loc))
        },
        BinaryOp::Lt => if both_int(a, b) {
            Ok(Value::Bool(a->Int_0 < b->Int_0))
        } else {
            Err(invalid_operation(loc))
        },
        BinaryOp::Gt => if both_int(a, b) {
            Ok(Value::Bool(a->Int_0 > b->Int_0))
        } else {
            Err(invalid_operation(loc))
        },
        BinaryOp::Lte => if both_int(a, b) {
            Ok(Value::Bool(a->Int_0 <= b->Int_0))
        } else {
            Err(invalid_operation(loc))
        },
        BinaryOp::Gte => if both_int(a, b) {
            Ok(Value::Bool(a->Int_0 >= b->Int_0))
        } else {
            Err(invalid_operation(loc))
        },
        BinaryOp::And => if both_bool(a, b) {
            Ok(Value::Bool(a->Bool_0 && b->Bool_0))
        } else {
            Err(invalid_operation(loc))
        },
        BinaryOp::Or => if both_bool(a, b) {
            Ok(Value::Bool(a->Bool_0 || b->Bool_0))
        } else {
            Err(invalid_operation(loc))
        },
    }
}

pub open spec fn result_view(r: Result<Val, RuntimeError>) -> Result<Value, Fault> {
    match r {
        Ok(v) => Ok(v@),
        Err(e) => Err(e@),
    }
}

fn divide(a: i32, b: i32) -> (r: i32)
    requires
        b != 0,
    ensures
        r == signed_crop(quot(a as int, b as int)),
{
    let x = a as i64;
    let y = b as i64;
    let ax: u64 = if x < 0 { (0 - x) as u64 } else { x as u64 };
    let ay: u64 = if y < 0 { (0 - y) as u64 } else { y as u64 };
    let q = ax / ay;
    assert(q <= ax) by (nonlinear_arith)
        requires
            ay >= 1,
            q == ax / ay,
    ;
    let sq: i64 = if (x < 0) == (y < 0) { q as i64 } else { 0 - q as i64 };
    if sq == 2147483648 {
        i32::MIN
    } else {
        sq as i32
    }
}

fn remainder(a: i32, b: i32) -> (r: i32)
    requires
        b != 0,
    ensures
        r == rem(a as int, b as int),
{
    let x = a as i64;
    let y = b as i64;
    let ax: u64 = if x < 0 { (0 - x) as u64 } else { x as u64 };
    let ay: u64 = if y < 0 { (0 - y) as u64 } else { y as u64 };
    let m = ax % ay;
    assert(m < ay);
    if x < 0 {
        (0 - m as i64) as i32
    } else {
        m as i32
    }
}

/// Applies `op` to two evaluated operands; `loc` is where the operation
/// is written, which a failure points at.
pub fn apply_binary(op: BinaryOp, lhs: Val, rhs: Val, loc: Location) -> (r: Result<Val, RuntimeError>)
    ensures
        result_view(r) == binary_spec(op, lhs@, rhs@, loc),
{
    match op {
        BinaryOp::Add => match (&lhs, &rhs) {
            (Val::Int(a), Val::Int(b)) => Ok(Val::Int(a.wrapping_add(*b))),
            _ => {
                let mut s = lhs.to_string();
                s.append(rhs.to_string().as_str());
                Ok(Val::Str(s))
            },
        },
        BinaryOp::Sub => match (&lhs, &rhs) {
            (Val::Int(a), Val::Int(b)) => Ok(Val::Int(a.wrapping_sub(*b))),
            _ => Err(RuntimeError::invalid_binary_operation(loc)),
        },
        BinaryOp::Mul => match (&lhs, &rhs) {
            (Val::Int(a), Val::Int(b)) => Ok(Val::Int(a.wrapping_mul(*b))),
            _ => Err(RuntimeError::invalid_binary_operation(loc)),
        },
        BinaryOp::Div => match (&lhs, &rhs) {
            (Val::Int(_), Val::Int(0)) => Err(RuntimeError::division_by_zero(loc)),
            (Val::Int(a), Val::Int(b)) => Ok(Val::Int(divide(*a, *b))),
            _ => Err(RuntimeError::invalid_binary_operation(loc)),
        },
        BinaryOp::Rem => match (&lhs, &rhs) {
            (Val::Int(_), Val::Int(0)) => Err(RuntimeError::division_by_zero(loc)),
            (Val::Int(a), Val::Int(b)) => Ok(Val::Int(remainder(*a, *b))),
            _ => Err(RuntimeError::invalid_binary_operation(loc)),
        },
        BinaryOp::Eq => match (&lhs, &rhs) {
            (Val::Int(a), Val::Int(b)) => Ok(Val::Bool(*a == *b)),
            (Val::Bool(a), Val::Bool(b)) => Ok(Val::Bool(*a == *b)),
            (Val::Str(a), Val::Str(b)) => Ok(Val::Bool(*a == *b)),
            _ => Err(RuntimeError::invalid_binary_operation(loc)),
        },
        BinaryOp::Neq => match (&lhs, &rhs) {
            (Val::Int(a), Val::Int(b)) => Ok(Val::Bool(*a != *b)),
            (Val::Bool(a), Val::Bool(b)) => Ok(Val::Bool(*a != *b)),
            (Val::Str(a), Val::Str(b)) => Ok(Val::Bool(!(*a == *b))),
            _ => Err(RuntimeError::invalid_binary_operation(loc)),
        },
        BinaryOp::Lt => match (&lhs, &rhs) {
            (Val::Int(a), Val::Int(b)) => Ok(Val::Bool(*a < *b)),
            _ => Err(RuntimeError::invalid_binary_operation(loc)),
        },
        BinaryOp::Gt => match (&lhs, &rhs) {
            (Val::Int(a), Val::Int(b)) => Ok(Val::Bool(*a > *b)),
            _ => Err(RuntimeError::invalid_binary_operation(loc)),
        },
        BinaryOp::Lte => match (&lhs, &rhs) {
            (Val::Int(a), Val::Int(b)) => Ok(Val::Bool(*a <= *b)),
            _ => Err(RuntimeError::invalid_binary_operation(loc)),
        },
        BinaryOp::Gte => match (&lhs, &rhs) {
            (Val::Int(a), Val::Int(b)) => Ok(Val::Bool(*a >= *b)),
            _ => Err(RuntimeError::invalid_binary_operation(loc)),
        },
        BinaryOp::And => match (&lhs, &rhs) {
            (Val::Bool(a), Val::Bool(b)) => Ok(Val::Bool(*a && *b)),
            _ => Err(RuntimeError::invalid_binary_operation(loc)),
        },
        BinaryOp::Or => match (&lhs, &rhs) {
            (Val::Bool(a), Val::Bool(b)) => Ok(Val::Bool(*a || *b)),
            _ => Err(RuntimeError::invalid_binary_operation(loc)),
        },
    }
}

} // verus!
