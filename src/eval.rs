//! The evaluator: its meaning as a function on models, and the code.
//!
//! Evaluation works on a scope and a store of frames and appends the text
//! of each `print` to an output list. A closure's body is evaluated with
//! one unit of `fuel` less than its call; when a call finds no fuel left,
//! evaluation stops with `None`.
use std::rc::Rc;

use vstd::prelude::*;

use crate::ast::{Binary, Call, Function, If, Let, Term, Tuple};
use crate::error::{unknown_identifier_text, ErrorKind, Fault, RuntimeError};
use crate::ops::{apply_binary, binary_spec, result_view};
use crate::scope::{assign, child, get_spec, lemma_value_wf_grows, value_wf, FrameView, Scope, Store};
use crate::value::{text_of, Val, Value};

verus! {

broadcast use vstd::std_specs::vec::axiom_vec_index_decreases;

/// What evaluating something yields (`None` when fuel ran out), the
/// frames afterwards, and the texts printed on the way, in order.
pub struct Outcome<T> {
    pub result: Option<Result<T, Fault>>,
    pub store: Seq<FrameView>,
    pub printed: Seq<Seq<char>>,
}

pub open spec fn finished<T>(r: Result<T, Fault>, st: Seq<FrameView>) -> Outcome<T> {
    Outcome { result: Some(r), store: st, printed: Seq::empty() }
}

/// `o`, preceded by the texts `p` printed before it.
pub open spec fn after<T>(p: Seq<Seq<char>>, o: Outcome<T>) -> Outcome<T> {
    Outcome { result: o.result, store: o.store, printed: p + o.printed }
}

pub open spec fn with_result<T, U>(o: Outcome<T>, r: Option<Result<U, Fault>>) -> Outcome<U> {
    Outcome { result: r, store: o.store, printed: o.printed }
}

/// An outcome that did not succeed, carried over to another result type.
pub open spec fn stopped<T, U>(o: Outcome<T>) -> Outcome<U> {
    with_result(
        o,
        match o.result {
            Some(Err(e)) => Some(Err(e)),
            _ => None,
        },
    )
}

pub open spec fn not_tuple_text() -> Seq<char> {
    "não é uma tupla"@
}

pub open spec fn not_function_text() -> Seq<char> {
    "não é uma função"@
}

pub open spec fn invalid_condition_text() -> Seq<char> {
    "condição inválida"@
}

pub open spec fn argument_fault(message: Seq<char>, loc: crate::ast::Location) -> Fault {
    Fault { message, location: loc, kind: ErrorKind::ArgumentError }
}

pub open spec fn unknown_fault(v: crate::ast::Var) -> Fault {
    Fault {
        message: crate::error::unknown_identifier_text(),
        location: v.location,
        kind: ErrorKind::UnknowIdentifier(v),
    }
}

pub open spec fn arity_fault(fun: Rc<Function>, loc: crate::ast::Location) -> Fault {
    Fault {
        message: crate::error::invalid_arity_text(),
        location: loc,
        kind: ErrorKind::InvalidNumberOfArguments(fun, loc),
    }
}

pub open spec fn body_of(fun: Rc<Function>) -> Term {
    fun.value
}

pub open spec fn call_width(t: Term) -> int {
    match t {
        Term::Call(c) => c.arguments@.len() as int + 1,
        _ => 0,
    }
}

/// Evaluates term `t` in the scope whose current frame is `sc`.
pub open spec fn eval_spec(t: Term, sc: usize, st: Seq<FrameView>, fuel: nat) -> Outcome<Value>
    decreases fuel, t, call_width(t),
{
    match t {
        Term::Int(n) => finished(Ok(Value::Int(n.value)), st),
        Term::Str(s) => finished(Ok(Value::Str(s.value@)), st),
        Term::Bool(b) => finished(Ok(Value::Bool(b.value)), st),
        Term::Print(p) => {
            let o = eval_spec(p.value, sc, st, fuel);
            match o.result {
                Some(Ok(v)) => Outcome {
                    result: o.result,
                    store: o.store,
                    printed: o.printed.push(text_of(v)),
                },
                _ => o,
            }
        },
        Term::Tuple(tp) => {
            let o1 = eval_spec(tp.first, sc, st, fuel);
            match o1.result {
                Some(Ok(a)) => {
                    let o2 = eval_spec(tp.second, sc, o1.store, fuel);
                    after(
                        o1.printed,
                        match o2.result {
                            Some(Ok(b)) => with_result(
                                o2,
                                Some(Ok(Value::Tuple(Box::new(a), Box::new(b)))),
                            ),
                            _ => o2,
                        },
                    )
                },
                _ => o1,
            }
        },
        Term::First(f) => {
            let o = eval_spec(f.value, sc, st, fuel);
            match o.result {
                Some(Ok(Value::Tuple(a, _))) => with_result(o, Some(Ok(*a))),
                Some(Ok(_)) => with_result(
                    o,
                    Some(Err(argument_fault(not_tuple_text(), f.value.span()))),
                ),
                _ => o,
            }
        },
        Term::Second(s) => {
            let o = eval_spec(s.value, sc, st, fuel);
            match o.result {
                Some(Ok(Value::Tuple(_, b))) => with_result(o, Some(Ok(*b))),
                Some(Ok(_)) => with_result(
                    o,
                    Some(Err(argument_fault(not_tuple_text(), s.value.span()))),
                ),
                _ => o,
            }
        },
        Term::Binary(bn) => {
            let o1 = eval_spec(bn.lhs, sc, st, fuel);
            match o1.result {
                Some(Ok(a)) => {
                    let o2 = eval_spec(bn.rhs, sc, o1.store, fuel);
                    after(
                        o1.printed,
                        match o2.result {
                            Some(Ok(b)) => with_result(
                                o2,
                                Some(binary_spec(bn.op, a, b, bn.location)),
                            ),
                            _ => o2,
                        },
                    )
                },
                _ => o1,
            }
        },
        Term::If(i) => {
            let o = eval_spec(i.condition, sc, st, fuel);
            match o.result {
                Some(Ok(Value::Bool(c))) => after(
                    o.printed,
                    eval_spec(
                        if c {
                            i.then_branch
                        } else {
                            i.otherwise
                        },
                        sc,
                        o.store,
                        fuel,
                    ),
                ),
                Some(Ok(_)) => with_result(
                    o,
                    Some(Err(argument_fault(invalid_condition_text(), i.condition.span()))),
                ),
                _ => o,
            }
        },
        Term::Let(l) => {
            let o = eval_spec(l.value, sc, st, fuel);
            match o.result {
                Some(Ok(v)) => after(
                    o.printed,
                    eval_spec(l.next, sc, assign(o.store, sc as int, l.name.text@, v), fuel),
                ),
                _ => o,
            }
        },
        Term::Var(v) => match get_spec(st, sc as int, v.text@) {
            (Some(c), st2) => finished(Ok(c), st2),
            (None, st2) => finished(Err(unknown_fault(v)), st2),
        },
        Term::Function(f) => finished(
            Ok(Value::Closure { fun: f, env: st.len() as usize }),
            st.push(child(sc)),
        ),
        Term::Call(c) => {
            let o = eval_spec(c.callee, sc, st, fuel);
            match o.result {
                Some(Ok(Value::Closure { fun, env })) => if fun.parameters@.len()
                    != c.arguments@.len() {
                    with_result(o, Some(Err(arity_fault(fun, c.location))))
                } else {
                    let b = bind_args(t, 0, sc, fun, env, o.store, fuel);
                    after(
                        o.printed,
                        match b.result {
                            Some(Ok(_)) => if fuel == 0 {
                                with_result(b, None)
                            } else {
                                after(
                                    b.printed,
                                    eval_spec(fun.value, env, b.store, (fuel - 1) as nat),
                                )
                            },
                            _ => stopped(b),
                        },
                    )
                },
                Some(Ok(_)) => with_result(
                    o,
                    Some(Err(argument_fault(not_function_text(), c.location))),
                ),
                _ => o,
            }
        },
    }
}

/// Evaluates the arguments of call `t` from the `i`-th on, in the caller's
/// scope `sc`, binding each to its parameter of `fun` in frame `env` as
/// soon as it is known.
pub open spec fn bind_args(
    t: Term,
    i: int,
    sc: usize,
    fun: Rc<Function>,
    env: usize,
    st: Seq<FrameView>,
    fuel: nat,
) -> Outcome<()>
    decreases fuel, t, call_width(t) - 1 - i,
{
    match t {
        Term::Call(c) => if 0 <= i < c.arguments@.len() && i < fun.parameters@.len() {
            let o = eval_spec(c.arguments@[i], sc, st, fuel);
            match o.result {
                Some(Ok(v)) => after(
                    o.printed,
                    bind_args(
                        t,
                        i + 1,
                        sc,
                        fun,
                        env,
                        assign(o.store, env as int, fun.parameters@[i].text@, v),
                        fuel,
                    ),
                ),
                _ => stopped(o),
            }
        } else {
            finished(Ok(()), st)
        },
        _ => finished(Ok(()), st),
    }
}

/// The texts of an output list.
pub open spec fn texts(out: Seq<String>) -> Seq<Seq<char>> {
    out.map_values(|s: String| s@)
}

pub open spec fn outcome_view(r: Option<Result<Val, RuntimeError>>) -> Option<Result<Value, Fault>> {
    match r {
        Some(Ok(v)) => Some(Ok(v@)),
        Some(Err(e)) => Some(Err(e@)),
        None => None,
    }
}

/// Result `r`, frames `st` and output `out`, where the output was `out0`
/// before, are what outcome `o` describes.
pub open spec fn agrees(
    o: Outcome<Value>,
    r: Option<Result<Val, RuntimeError>>,
    st: Seq<FrameView>,
    out0: Seq<String>,
    out: Seq<String>,
) -> bool {
    &&& outcome_view(r) == o.result
    &&& st == o.store
    &&& texts(out) == texts(out0) + o.printed
}

proof fn lemma_texts_push(out: Seq<String>, s: String)
    ensures
        texts(out.push(s)) == texts(out).push(s@),
{
    assert(texts(out.push(s)) =~= texts(out).push(s@));
}

proof fn lemma_join(a: Seq<Seq<char>>, b: Seq<Seq<char>>, c: Seq<Seq<char>>)
    ensures
        (a + b) + c == a + (b + c),
{
    assert((a + b) + c =~= a + (b + c));
}

/// Evaluates `term` in `scope`. Each `print` appends its text to `out`.
/// A closure's body is evaluated with one unit of `fuel` less than the
/// call; a call that finds no fuel left makes the result `None`.
pub fn eval(
    term: &Term,
    scope: Scope,
    store: &mut Store,
    out: &mut Vec<String>,
    fuel: u64,
) -> (r: Option<Result<Val, RuntimeError>>)
    requires
        old(store).wf(),
        scope.frame < old(store)@.len(),
    ensures
        final(store).wf(),
        old(store)@.len() <= final(store)@.len(),
        agrees(
            eval_spec(*term, scope.frame, old(store)@, fuel as nat),
            r,
            final(store)@,
            old(out)@,
            final(out)@,
        ),
        r matches Some(Ok(v)) ==> value_wf(v@, final(store)@.len()),
    decreases fuel, term,
{
    proof {
        // the cases that print nothing leave the output as it was
        assert(texts(out@) =~= texts(out@) + Seq::<Seq<char>>::empty());
    }
    match term {
        Term::Int(n) => {
            Some(Ok(Val::Int(n.value)))
        },
        Term::Str(s) => {
            Some(Ok(Val::Str(s.value.clone())))
        },
        Term::Bool(b) => {
            Some(Ok(Val::Bool(b.value)))
        },
        Term::Print(p) => {
            let ghost out0 = out@;
            let r = eval(&p.value, scope, store, out, fuel);
            match r {
                Some(Ok(v)) => {
                    let ghost out1 = out@;
                    let s = v.to_string();
                    out.push(s);
                    proof {
                        lemma_texts_push(out1, s);
                        let o = eval_spec(p.value, scope.frame, old(store)@, fuel as nat);
                        assert(texts(out0) + o.printed.push(text_of(v@)) =~= (texts(out0)
                            + o.printed).push(text_of(v@)));
                    }
                    Some(Ok(v))
                },
                other => other,
            }
        },
        Term::Tuple(tp) => eval_tuple(tp, scope, store, out, fuel),
        Term::First(f) => {
            match eval(&f.value, scope, store, out, fuel) {
                Some(Ok(Val::Tuple(p))) => {
                    let (a, _b) = p;
                    Some(Ok(*a))
                },
                Some(Ok(_)) => Some(
                    Err(RuntimeError::new(String::from_str("não é uma tupla"), *f.value.location())),
                ),
                other => other,
            }
        },
        Term::Second(s) => {
            match eval(&s.value, scope, store, out, fuel) {
                Some(Ok(Val::Tuple(p))) => {
                    let (_a, b) = p;
                    Some(Ok(*b))
                },
                Some(Ok(_)) => Some(
                    Err(RuntimeError::new(String::from_str("não é uma tupla"), *s.value.location())),
                ),
                other => other,
            }
        },
        Term::Binary(bn) => eval_binary(bn, scope, store, out, fuel),
        Term::If(i) => eval_if(i, scope, store, out, fuel),
        Term::Let(l) => eval_let(l, scope, store, out, fuel),
        Term::Var(v) => {
            match scope.get(store, v.text.as_str()) {
                Some(c) => Some(Ok(c)),
                None => Some(
                    Err(
                        RuntimeError::unknow_identifier(
                            crate::ast::Var { text: v.text.clone(), location: v.location },
                        ),
                    ),
                ),
            }
        },
        Term::Function(f) => {
            let e = scope.snapshot(store);
            Some(Ok(Val::Closure { fun: Rc::clone(f), env: e }))
        },
        Term::Call(c) => eval_call(c, scope, store, out, fuel),
    }
}

fn eval_tuple(
    tp: &Box<Tuple>,
    scope: Scope,
    store: &mut Store,
    out: &mut Vec<String>,
    fuel: u64,
) -> (r: Option<Result<Val, RuntimeError>>)
    requires
        old(store).wf(),
        scope.frame < old(store)@.len(),
    ensures
        final(store).wf(),
        old(store)@.len() <= final(store)@.len(),
        agrees(
            eval_spec(Term::Tuple(*tp), scope.frame, old(store)@, fuel as nat),
            r,
            final(store)@,
            old(out)@,
            final(out)@,
        ),
        r matches Some(Ok(v)) ==> value_wf(v@, final(store)@.len()),
    decreases fuel, tp,
{
    let ghost out0 = out@;
    let ghost st0 = store@;
    let ghost o1 = eval_spec(tp.first, scope.frame, st0, fuel as nat);
    let a = match eval(&tp.first, scope, store, out, fuel) {
        Some(Ok(v)) => v,
        other => return other,
    };
    let ghost out1 = out@;
    let ghost st1 = store@;
    let ghost o2 = eval_spec(tp.second, scope.frame, st1, fuel as nat);
    let r = eval(&tp.second, scope, store, out, fuel);
    proof {
        lemma_join(texts(out0), o1.printed, o2.printed);
    }
    match r {
        Some(Ok(b)) => {
            proof {
                lemma_value_wf_grows(a@, st1.len(), store@.len());
            }
            Some(Ok(Val::Tuple((Box::new(a), Box::new(b)))))
        },
        other => other,
    }
}

fn eval_binary(
    bn: &Box<Binary>,
    scope: Scope,
    store: &mut Store,
    out: &mut Vec<String>,
    fuel: u64,
) -> (r: Option<Result<Val, RuntimeError>>)
    requires
        old(store).wf(),
        scope.frame < old(store)@.len(),
    ensures
        final(store).wf(),
        old(store)@.len() <= final(store)@.len(),
        agrees(
            eval_spec(Term::Binary(*bn), scope.frame, old(store)@, fuel as nat),
            r,
            final(store)@,
            old(out)@,
            final(out)@,
        ),
        r matches Some(Ok(v)) ==> value_wf(v@, final(store)@.len()),
    decreases fuel, bn,
{
    let ghost out0 = out@;
    let ghost st0 = store@;
    let ghost o1 = eval_spec(bn.lhs, scope.frame, st0, fuel as nat);
    let a = match eval(&bn.lhs, scope, store, out, fuel) {
        Some(Ok(v)) => v,
        other => return other,
    };
    let ghost st1 = store@;
    let ghost o2 = eval_spec(bn.rhs, scope.frame, st1, fuel as nat);
    let r = eval(&bn.rhs, scope, store, out, fuel);
    proof {
        lemma_join(texts(out0), o1.printed, o2.printed);
    }
    match r {
        Some(Ok(b)) => {
            proof {
                lemma_value_wf_grows(a@, st1.len(), store@.len());
            }
            let v = apply_binary(bn.op, a, b, bn.location);
            proof {
                lemma_binary_wf(bn.op, a@, b@, bn.location, store@.len());
            }
            Some(v)
        },
        other => other,
    }
}

/// An operator's result refers to no frame that its operands do not.
proof fn lemma_binary_wf(op: crate::ast::BinaryOp, a: Value, b: Value, loc: crate::ast::Location, n: nat)
    requires
        value_wf(a, n),
        value_wf(b, n),
    ensures
        binary_spec(op, a, b, loc) matches Ok(v) ==> value_wf(v, n),
{
}

fn eval_if(
    i: &Box<If>,
    scope: Scope,
    store: &mut Store,
    out: &mut Vec<String>,
    fuel: u64,
) -> (r: Option<Result<Val, RuntimeError>>)
    requires
        old(store).wf(),
        scope.frame < old(store)@.len(),
    ensures
        final(store).wf(),
        old(store)@.len() <= final(store)@.len(),
        agrees(
            eval_spec(Term::If(*i), scope.frame, old(store)@, fuel as nat),
            r,
            final(store)@,
            old(out)@,
            final(out)@,
        ),
        r matches Some(Ok(v)) ==> value_wf(v@, final(store)@.len()),
    decreases fuel, i,
{
    let ghost out0 = out@;
    let ghost st0 = store@;
    let ghost o1 = eval_spec(i.condition, scope.frame, st0, fuel as nat);
    match eval(&i.condition, scope, store, out, fuel) {
        Some(Ok(Val::Bool(c))) => {
            let ghost st1 = store@;
            if c {
                let ghost o2 = eval_spec(i.then_branch, scope.frame, st1, fuel as nat);
                let r = eval(&i.then_branch, scope, store, out, fuel);
                proof {
                    lemma_join(texts(out0), o1.printed, o2.printed);
                }
                r
            } else {
                let ghost o2 = eval_spec(i.otherwise, scope.frame, st1, fuel as nat);
                let r = eval(&i.otherwise, scope, store, out, fuel);
                proof {
                    lemma_join(texts(out0), o1.printed, o2.printed);
                }
                r
            }
        },
        Some(Ok(_)) => Some(
            Err(
                RuntimeError::new(String::from_str("condição inválida"), *i.condition.location()),
            ),
        ),
        other => other,
    }
}

fn eval_let(
    l: &Box<Let>,
    scope: Scope,
    store: &mut Store,
    out: &mut Vec<String>,
    fuel: u64,
) -> (r: Option<Result<Val, RuntimeError>>)
    requires
        old(store).wf(),
        scope.frame < old(store)@.len(),
    ensures
        final(store).wf(),
        old(store)@.len() <= final(store)@.len(),
        agrees(
            eval_spec(Term::Let(*l), scope.frame, old(store)@, fuel as nat),
            r,
            final(store)@,
            old(out)@,
            final(out)@,
        ),
        r matches Some(Ok(v)) ==> value_wf(v@, final(store)@.len()),
    decreases fuel, l,
{
    let ghost out0 = out@;
    let ghost st0 = store@;
    let ghost o1 = eval_spec(l.value, scope.frame, st0, fuel as nat);
    let v = match eval(&l.value, scope, store, out, fuel) {
        Some(Ok(v)) => v,
        other => return other,
    };
    scope.set(store, l.name.text.as_str(), v);
    let ghost st2 = store@;
    let ghost o2 = eval_spec(l.next, scope.frame, st2, fuel as nat);
    let r = eval(&l.next, scope, store, out, fuel);
    proof {
        lemma_join(texts(out0), o1.printed, o2.printed);
    }
    r
}

fn eval_call(
    c: &Box<Call>,
    scope: Scope,
    store: &mut Store,
    out: &mut Vec<String>,
    fuel: u64,
) -> (r: Option<Result<Val, RuntimeError>>)
    requires
        old(store).wf(),
        scope.frame < old(store)@.len(),
    ensures
        final(store).wf(),
        old(store)@.len() <= final(store)@.len(),
        agrees(
            eval_spec(Term::Call(*c), scope.frame, old(store)@, fuel as nat),
            r,
            final(store)@,
            old(out)@,
            final(out)@,
        ),
        r matches Some(Ok(v)) ==> value_wf(v@, final(store)@.len()),
    decreases fuel, c,
{
    let ghost out0 = out@;
    let ghost st0 = store@;
    let ghost t = Term::Call(*c);
    let ghost o = eval_spec(c.callee, scope.frame, st0, fuel as nat);
    let callee = match eval(&c.callee, scope, store, out, fuel) {
        Some(Ok(v)) => v,
        other => return other,
    };
    match callee {
        Val::Closure { fun, env } => {
            if c.arguments.len() != fun.parameters.len() {
                return Some(Err(RuntimeError::invalid_number_of_arguments(fun, c.location)));
            }
            let ghost st1 = store@;
            let ghost out1 = out@;
            let ghost b0 = bind_args(t, 0, scope.frame, fun, env.frame, st1, fuel as nat);
            let n = c.arguments.len();
            let mut i: usize = 0;
            while i < n
                invariant
                    i <= n,
                    n == c.arguments@.len(),
                    n == fun.parameters@.len(),
                    t == Term::Call(*c),
                    store.wf(),
                    scope.frame < store@.len(),
                    env.frame < store@.len(),
                    st0.len() <= store@.len(),
                    st0 == old(store)@,
                    out0 == old(out)@,
                    texts(out1) == texts(out0) + o.printed,
                    o == eval_spec(c.callee, scope.frame, st0, fuel as nat),
                    o.result == Some(Ok::<Value, Fault>(Value::Closure { fun, env: env.frame })),
                    o.store == st1,
                    b0 == bind_args(t, 0, scope.frame, fun, env.frame, st1, fuel as nat),
                    b0.result == bind_args(t, i as int, scope.frame, fun, env.frame, store@, fuel as nat).result,
                    b0.store == bind_args(t, i as int, scope.frame, fun, env.frame, store@, fuel as nat).store,
                    texts(out1) + b0.printed == texts(out@) + bind_args(
                        t,
                        i as int,
                        scope.frame,
                        fun,
                        env.frame,
                        store@,
                        fuel as nat,
                    ).printed,
                decreases n - i,
            {
                let ghost sti = store@;
                let ghost outi = out@;
                let ghost oi = eval_spec(c.arguments@[i as int], scope.frame, sti, fuel as nat);
                let ghost rest = bind_args(
                    t,
                    i + 1,
                    scope.frame,
                    fun,
                    env.frame,
                    assign(oi.store, env.frame as int, fun.parameters@[i as int].text@, oi.result->Some_0->Ok_0),
                    fuel as nat,
                );
                match eval(&c.arguments[i], scope, store, out, fuel) {
                    Some(Ok(v)) => {
                        env.set(store, fun.parameters[i].text.as_str(), v);
                        proof {
                            lemma_join(texts(outi), oi.printed, rest.printed);
                        }
                    },
                    Some(Err(e)) => {
                        proof {
                            lemma_join(texts(out0), o.printed, b0.printed);
                        }
                        return Some(Err(e));
                    },
                    None => {
                        proof {
                            lemma_join(texts(out0), o.printed, b0.printed);
                        }
                        return None;
                    },
                }
                i = i + 1;
            }
            proof {
                assert(texts(out@) + Seq::<Seq<char>>::empty() =~= texts(out@));
                lemma_join(texts(out0), o.printed, b0.printed);
            }
            if fuel == 0 {
                return None;
            }
            let ghost st2 = store@;
            let ghost out2 = out@;
            let r = eval(&fun.value, env, store, out, fuel - 1);
            proof {
                let ob = eval_spec(body_of(fun), env.frame, st2, (fuel - 1) as nat);
                lemma_join(texts(out0), o.printed, b0.printed + ob.printed);
                lemma_join(texts(out1), b0.printed, ob.printed);
            }
            r
        },
        _ => Some(Err(RuntimeError::new(String::from_str("não é uma função"), c.location))),
    }
}

/// The frames of a fresh program run: one empty root frame.
pub open spec fn initial_store() -> Seq<FrameView> {
    seq![FrameView { vars: Map::empty(), parent: None }]
}

/// Evaluates a whole program in a fresh scope with no bindings, and
/// returns its result with the texts it printed, in order.
pub fn run(term: &Term, fuel: u64) -> (r: (Option<Result<Val, RuntimeError>>, Vec<String>))
    ensures
        ({
            let o = eval_spec(*term, 0, initial_store(), fuel as nat);
            &&& outcome_view(r.0) == o.result
            &&& texts(r.1@) == o.printed
        }),
{
    let mut store = Store::new();
    let scope = Scope::new(&mut store);
    assert(store@ =~= initial_store());
    let mut out: Vec<String> = Vec::new();
    let r = eval(term, scope, &mut store, &mut out, fuel);
    assert(texts(Seq::<String>::empty()) =~= Seq::<Seq<char>>::empty());
    assert(Seq::<Seq<char>>::empty() + eval_spec(*term, 0, initial_store(), fuel as nat).printed
        =~= eval_spec(*term, 0, initial_store(), fuel as nat).printed);
    (r, out)
}

} // verus!
