//! Properties of the evaluator, proved from its definition.
use vstd::prelude::*;
use vstd::wrapping::i32_specs::{wrapping_add, wrapping_sub};

use crate::ast::{Binary, BinaryOp, Call, First, Location, Print, Second, Term};
use crate::eval::{argument_fault, arity_fault, eval_spec, not_tuple_text};
use crate::ops::{binary_spec, division_by_zero, invalid_operation};
use crate::scope::{assign, lookup, FrameView};
use crate::value::{same, text_of, Value};

verus! {

/// When both operands evaluate to integers `a` and `b`, left then right,
/// `+` and `-` yield `a + b` and `a - b`, whenever that fits in 32 bits.
pub proof fn law_integer_sum_difference(
    bn: Binary,
    a: i32,
    b: i32,
    sc: usize,
    st: Seq<FrameView>,
    fuel: nat,
)
    requires
        eval_spec(bn.lhs, sc, st, fuel).result == Some(
            Ok::<Value, crate::error::Fault>(Value::Int(a)),
        ),
        eval_spec(bn.rhs, sc, eval_spec(bn.lhs, sc, st, fuel).store, fuel).result == Some(
            Ok::<Value, crate::error::Fault>(Value::Int(b)),
        ),
    ensures
        ({
            let r = eval_spec(Term::Binary(Box::new(bn)), sc, st, fuel).result;
            &&& bn.op == BinaryOp::Add && i32::MIN <= a + b <= i32::MAX ==> r == Some(
                Ok::<Value, crate::error::Fault>(Value::Int((a + b) as i32)),
            )
            &&& bn.op == BinaryOp::Sub && i32::MIN <= a - b <= i32::MAX ==> r == Some(
                Ok::<Value, crate::error::Fault>(Value::Int((a - b) as i32)),
            )
        }),
{
    let t = Term::Binary(Box::new(bn));
    assert(eval_spec(t, sc, st, fuel).result == Some(
        binary_spec(bn.op, Value::Int(a), Value::Int(b), bn.location),
    ));
    if bn.op == BinaryOp::Add {
        assert(wrapping_add(a, b) == a + b || !(i32::MIN <= a + b <= i32::MAX));
    }
    if bn.op == BinaryOp::Sub {
        assert(wrapping_sub(a, b) == a - b || !(i32::MIN <= a - b <= i32::MAX));
    }
}

/// Dividing an integer by zero fails with a division-by-zero error at the
/// division, whatever the left operand is.
pub proof fn law_division_by_zero(bn: Binary, sc: usize, st: Seq<FrameView>, fuel: nat)
    requires
        bn.op == BinaryOp::Div,
        eval_spec(bn.lhs, sc, st, fuel).result matches Some(Ok(Value::Int(_))),
        bn.rhs matches Term::Int(z) && z.value == 0,
    ensures
        eval_spec(Term::Binary(Box::new(bn)), sc, st, fuel).result == Some(
            Err::<Value, crate::error::Fault>(division_by_zero(bn.location)),
        ),
{
    let o1 = eval_spec(bn.lhs, sc, st, fuel);
    assert(eval_spec(bn.rhs, sc, o1.store, fuel).result == Some(
        Ok::<Value, crate::error::Fault>(Value::Int(0)),
    ));
}

/// `+` on any two operands that are not both integers concatenates their
/// printed texts.
pub proof fn law_concatenation(a: Value, b: Value, loc: Location)
    requires
        !(a is Int && b is Int),
    ensures
        binary_spec(BinaryOp::Add, a, b, loc) == Ok::<Value, crate::error::Fault>(
            Value::Str(text_of(a) + text_of(b)),
        ),
{
}

/// `==` and `!=` fail with an invalid-operation error when either operand
/// is a pair, or both are closures.
pub proof fn law_no_equality_on_pairs_or_closures(op: BinaryOp, a: Value, b: Value, loc: Location)
    requires
        op == BinaryOp::Eq || op == BinaryOp::Neq,
        a is Tuple || b is Tuple || (a is Closure && b is Closure),
    ensures
        binary_spec(op, a, b, loc) == Err::<Value, crate::error::Fault>(invalid_operation(loc)),
{
}

/// A closure is never equal to any value, itself included.
pub proof fn law_closures_unequal(a: Value, b: Value)
    requires
        a is Closure || b is Closure,
    ensures
        !same(a, b),
{
}

/// After a name is bound in a frame, looking it up from that frame finds
/// the new value: every earlier binding of the name is hidden.
pub proof fn law_rebinding_hides(st: Seq<FrameView>, f: int, k: Seq<char>, v: Value)
    requires
        0 <= f < st.len(),
    ensures
        lookup(assign(st, f, k, v), f, k) == Some(v),
{
}

/// A call whose argument count differs from the function's parameter count
/// fails with an invalid-number-of-arguments error, evaluates no argument
/// and binds nothing.
pub proof fn law_wrong_argument_count(c: Call, sc: usize, st: Seq<FrameView>, fuel: nat)
    requires
        eval_spec(c.callee, sc, st, fuel).result matches Some(Ok(Value::Closure { fun, .. }))
            && fun.parameters@.len() != c.arguments@.len(),
    ensures
        ({
            let callee = eval_spec(c.callee, sc, st, fuel);
            let o = eval_spec(Term::Call(Box::new(c)), sc, st, fuel);
            let fun = callee.result->Some_0->Ok_0->fun;
            &&& o.result == Some(Err::<Value, crate::error::Fault>(arity_fault(fun, c.location)))
            &&& o.store == callee.store
            &&& o.printed == callee.printed
        }),
{
}

/// `print` yields its operand's value unchanged and adds that value's text
/// after whatever the operand printed.
pub proof fn law_print_returns_operand(p: Print, sc: usize, st: Seq<FrameView>, fuel: nat)
    ensures
        ({
            let inner = eval_spec(p.value, sc, st, fuel);
            let o = eval_spec(Term::Print(Box::new(p)), sc, st, fuel);
            &&& o.result == inner.result
            &&& o.store == inner.store
            &&& (inner.result matches Some(Ok(v)) ==> o.printed == inner.printed.push(text_of(v)))
            &&& (!(inner.result is Some && inner.result->Some_0 is Ok) ==> o.printed == inner.printed)
        }),
{
}

/// Projecting a value that is not a pair fails with an argument error at
/// the operand's range.
pub proof fn law_projection_of_non_pair(f: First, s: Second, sc: usize, st: Seq<FrameView>, fuel: nat)
    ensures
        eval_spec(f.value, sc, st, fuel).result matches Some(Ok(v)) && !(v is Tuple)
            ==> eval_spec(Term::First(Box::new(f)), sc, st, fuel).result == Some(
            Err::<Value, crate::error::Fault>(argument_fault(not_tuple_text(), f.value.span())),
        ),
        eval_spec(s.value, sc, st, fuel).result matches Some(Ok(v)) && !(v is Tuple)
            ==> eval_spec(Term::Second(Box::new(s)), sc, st, fuel).result == Some(
            Err::<Value, crate::error::Fault>(argument_fault(not_tuple_text(), s.value.span())),
        ),
{
}

} // verus!
