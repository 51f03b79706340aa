use std::rc::Rc;

use rinha_interp::{
    run, Binary, BinaryOp, Bool, Call, ErrorKind, First, Function, If, Int, Let, Location,
    Parameter, Print, RuntimeError, Second, Str, Term, Tuple, Val, Var,
};

fn at(start: usize, end: usize) -> Location {
    Location { start, end }
}

fn num(value: i32) -> Term {
    Term::Int(Int { value, location: at(0, 0) })
}

fn boolean(value: bool) -> Term {
    Term::Bool(Bool { value, location: at(0, 0) })
}

fn string(value: &str) -> Term {
    Term::Str(Str { value: value.to_string(), location: at(0, 0) })
}

fn var(text: &str) -> Term {
    Term::Var(Var { text: text.to_string(), location: at(0, 0) })
}

fn print(value: Term) -> Term {
    Term::Print(Box::new(Print { value, location: at(0, 0) }))
}

fn bin(lhs: Term, op: BinaryOp, rhs: Term) -> Term {
    Term::Binary(Box::new(Binary { lhs, op, rhs, location: at(0, 0) }))
}

fn pair(first: Term, second: Term) -> Term {
    Term::Tuple(Box::new(Tuple { first, second, location: at(0, 0) }))
}

fn first(value: Term) -> Term {
    Term::First(Box::new(First { value, location: at(0, 0) }))
}

fn second(value: Term) -> Term {
    Term::Second(Box::new(Second { value, location: at(0, 0) }))
}

fn name(text: &str) -> Parameter {
    Parameter { text: text.to_string(), location: at(0, 0) }
}

fn let_in(n: &str, value: Term, next: Term) -> Term {
    Term::Let(Box::new(Let { name: name(n), value, next, location: at(0, 0) }))
}

fn fun(params: &[&str], body: Term) -> Term {
    Term::Function(Rc::new(Function {
        parameters: params.iter().map(|p| name(p)).collect(),
        value: body,
        location: at(0, 0),
    }))
}

fn call(callee: Term, arguments: Vec<Term>) -> Term {
    Term::Call(Box::new(Call { callee, arguments, location: at(0, 0) }))
}

fn if_else(condition: Term, then_branch: Term, otherwise: Term) -> Term {
    Term::If(Box::new(If { condition, then_branch, otherwise, location: at(0, 0) }))
}

/// What a program prints, one line per `print`, without trailing space.
fn rinha(program: Term) -> String {
    let (result, out) = run(&program, u64::MAX);
    assert!(matches!(result, Some(Ok(_))));
    let mut text = String::new();
    for line in out {
        text.push_str(&line);
        text.push('\n');
    }
    text.trim_end().to_owned()
}

fn value_of(program: Term) -> Val {
    match run(&program, u64::MAX).0 {
        Some(Ok(v)) => v,
        _ => panic!("evaluation failed"),
    }
}

fn error_of(program: Term) -> RuntimeError {
    match run(&program, u64::MAX).0 {
        Some(Err(e)) => e,
        _ => panic!("evaluation did not fail"),
    }
}

#[test]
fn test_print() {
    assert_eq!(rinha(print(string("hello"))), "hello");
    assert_eq!(rinha(print(bin(num(1), BinaryOp::Add, num(2)))), "3");
    assert_eq!(rinha(print(bin(num(1), BinaryOp::Eq, num(1)))), "true");
    assert_eq!(rinha(print(bin(num(1), BinaryOp::Eq, num(2)))), "false");
    assert_eq!(rinha(print(pair(num(1), boolean(false)))), "(1, false)");
    assert_eq!(rinha(let_in("f", fun(&[], num(1)), print(var("f")))), "<#closure>");
    assert_eq!(rinha(print(print(num(1)))), "1\n1");
    assert_eq!(
        // the parser groups `"1 + 2 = " + 1 + 2` to the right
        rinha(print(bin(
            string("1 + 2 = "),
            BinaryOp::Add,
            bin(num(1), BinaryOp::Add, num(2))
        ))),
        "1 + 2 = 3"
    );
}

#[test]
fn test_binary_operations() {
    assert_eq!(rinha(print(bin(num(2), BinaryOp::Add, num(2)))), "4");
    assert_eq!(rinha(print(bin(num(2), BinaryOp::Sub, num(4)))), "-2");
    assert_eq!(rinha(print(bin(num(2), BinaryOp::Mul, num(4)))), "8");
    assert_eq!(rinha(print(bin(num(4), BinaryOp::Div, num(2)))), "2");
    assert_eq!(rinha(print(bin(num(6), BinaryOp::Rem, num(4)))), "2");
    let both = |a: Term, b: Term| print(pair(a, b));
    assert_eq!(
        rinha(both(bin(num(6), BinaryOp::Eq, num(6)), bin(num(6), BinaryOp::Eq, num(5)))),
        "(true, false)"
    );
    assert_eq!(
        rinha(both(bin(num(6), BinaryOp::Neq, num(6)), bin(num(6), BinaryOp::Neq, num(5)))),
        "(false, true)"
    );
    assert_eq!(
        rinha(both(bin(num(6), BinaryOp::Gt, num(4)), bin(num(3), BinaryOp::Gt, num(5)))),
        "(true, false)"
    );
    assert_eq!(
        rinha(both(bin(num(6), BinaryOp::Lt, num(4)), bin(num(3), BinaryOp::Lt, num(5)))),
        "(false, true)"
    );
    assert_eq!(
        rinha(both(bin(num(6), BinaryOp::Gte, num(6)), bin(num(6), BinaryOp::Lte, num(5)))),
        "(true, false)"
    );
    assert_eq!(
        rinha(both(bin(num(6), BinaryOp::Lte, num(6)), bin(num(6), BinaryOp::Gte, num(5)))),
        "(true, true)"
    );
    assert_eq!(rinha(print(bin(boolean(true), BinaryOp::And, boolean(true)))), "true");
    assert_eq!(rinha(print(bin(boolean(true), BinaryOp::And, boolean(false)))), "false");
    assert_eq!(rinha(print(bin(boolean(true), BinaryOp::Or, boolean(false)))), "true");
    assert_eq!(rinha(print(bin(boolean(false), BinaryOp::Or, boolean(false)))), "false");
}

#[test]
fn test_closure() {
    // let a = 1; let b = fn (n) => { let c = 2; let d = fn (n) => { a + c + n }; d(n) }; print(b(1))
    let d = fun(&["n"], bin(bin(var("a"), BinaryOp::Add, var("c")), BinaryOp::Add, var("n")));
    let b = fun(&["n"], let_in("c", num(2), let_in("d", d, call(var("d"), vec![var("n")]))));
    let program = let_in("a", num(1), let_in("b", b, print(call(var("b"), vec![num(1)]))));
    assert_eq!(rinha(program), "4");
}

fn fibonacci() -> Term {
    // fn (n) => { if (n < 2) { n } else { fib(n - 1) + fib(n - 2) } }
    fun(
        &["n"],
        if_else(
            bin(var("n"), BinaryOp::Lt, num(2)),
            var("n"),
            bin(
                call(var("fib"), vec![bin(var("n"), BinaryOp::Sub, num(1))]),
                BinaryOp::Add,
                call(var("fib"), vec![bin(var("n"), BinaryOp::Sub, num(2))]),
            ),
        ),
    )
}

#[test]
fn test_fibonacci() {
    let program = let_in(
        "fib",
        fibonacci(),
        print(bin(string("fib: "), BinaryOp::Add, call(var("fib"), vec![num(10)]))),
    );
    assert_eq!(rinha(program), "fib: 55");
}

#[test]
fn test_currying() {
    // let add = fn (a) => { fn (b) => { a + b } }; let addOne = add(1); print(addOne(2))
    let add = fun(&["a"], fun(&["b"], bin(var("a"), BinaryOp::Add, var("b"))));
    let program = let_in(
        "add",
        add,
        let_in("addOne", call(var("add"), vec![num(1)]), print(call(var("addOne"), vec![num(2)]))),
    );
    assert_eq!(rinha(program), "3");
}

#[test]
fn integer_sum_and_difference() {
    assert_eq!(value_of(bin(num(40), BinaryOp::Add, num(2))), Val::Int(42));
    assert_eq!(value_of(bin(num(-7), BinaryOp::Sub, num(5))), Val::Int(-12));
    assert_eq!(value_of(bin(num(i32::MAX), BinaryOp::Add, num(1))), Val::Int(i32::MIN));
    assert_eq!(value_of(bin(num(i32::MIN), BinaryOp::Sub, num(1))), Val::Int(i32::MAX));
}

#[test]
fn division_truncates_toward_zero() {
    assert_eq!(value_of(bin(num(-7), BinaryOp::Div, num(2))), Val::Int(-3));
    assert_eq!(value_of(bin(num(7), BinaryOp::Div, num(-2))), Val::Int(-3));
    assert_eq!(value_of(bin(num(-7), BinaryOp::Rem, num(2))), Val::Int(-1));
    assert_eq!(value_of(bin(num(7), BinaryOp::Rem, num(-2))), Val::Int(1));
    assert_eq!(value_of(bin(num(i32::MIN), BinaryOp::Div, num(-1))), Val::Int(i32::MIN));
    assert_eq!(value_of(bin(num(i32::MIN), BinaryOp::Rem, num(-1))), Val::Int(0));
    assert_eq!(value_of(bin(num(6), BinaryOp::Mul, num(-7))), Val::Int(-42));
}

#[test]
fn division_by_zero_fails_at_the_division() {
    let mut program = bin(num(5), BinaryOp::Div, num(0));
    if let Term::Binary(b) = &mut program {
        b.location = at(3, 8);
    }
    let e = error_of(program);
    assert!(matches!(e.kind, ErrorKind::DivisionByZero));
    assert_eq!(e.location, at(3, 8));
    assert!(matches!(
        error_of(bin(num(i32::MIN), BinaryOp::Div, num(0))).kind,
        ErrorKind::DivisionByZero
    ));
    assert!(matches!(
        error_of(bin(num(5), BinaryOp::Rem, num(0))).kind,
        ErrorKind::DivisionByZero
    ));
}

#[test]
fn concatenation_of_mixed_operands() {
    assert_eq!(value_of(bin(string("a"), BinaryOp::Add, string("b"))), Val::Str("ab".to_string()));
    assert_eq!(value_of(bin(num(1), BinaryOp::Add, string("x"))), Val::Str("1x".to_string()));
    assert_eq!(value_of(bin(string("x"), BinaryOp::Add, num(-1))), Val::Str("x-1".to_string()));
    assert_eq!(
        value_of(bin(boolean(true), BinaryOp::Add, pair(num(1), string("s")))),
        Val::Str("true(1, s)".to_string())
    );
    assert_eq!(
        value_of(bin(fun(&[], num(1)), BinaryOp::Add, num(2))),
        Val::Str("<#closure>2".to_string())
    );
}

#[test]
fn equality_on_pairs_and_closures_fails() {
    let cases = vec![
        bin(pair(num(1), num(2)), BinaryOp::Eq, pair(num(1), num(2))),
        bin(pair(num(1), num(2)), BinaryOp::Neq, num(1)),
        bin(num(1), BinaryOp::Eq, pair(num(1), num(2))),
        bin(fun(&[], num(1)), BinaryOp::Eq, fun(&[], num(1))),
        bin(fun(&[], num(1)), BinaryOp::Neq, fun(&[], num(1))),
        bin(num(1), BinaryOp::Eq, string("1")),
    ];
    for program in cases {
        assert!(matches!(error_of(program).kind, ErrorKind::InvalidBinaryOperation));
    }
    assert_eq!(value_of(bin(string("a"), BinaryOp::Eq, string("a"))), Val::Bool(true));
    assert_eq!(value_of(bin(boolean(true), BinaryOp::Neq, boolean(false))), Val::Bool(true));
}

#[test]
fn operators_reject_wrong_operands() {
    let cases = vec![
        bin(num(1), BinaryOp::Sub, string("a")),
        bin(boolean(true), BinaryOp::Mul, num(2)),
        bin(string("6"), BinaryOp::Div, num(0)),
        bin(num(1), BinaryOp::Lt, boolean(true)),
        bin(num(1), BinaryOp::And, boolean(true)),
        bin(boolean(false), BinaryOp::Or, num(0)),
    ];
    for program in cases {
        assert!(matches!(error_of(program).kind, ErrorKind::InvalidBinaryOperation));
    }
}

#[test]
fn shadowing_rebinds_the_name() {
    let program = let_in("x", num(1), let_in("x", num(2), var("x")));
    assert_eq!(value_of(program), Val::Int(2));
}

#[test]
fn recursive_fibonacci_value() {
    let program = let_in("fib", fibonacci(), call(var("fib"), vec![num(10)]));
    assert_eq!(value_of(program), Val::Int(55));
}

#[test]
fn wrong_argument_count_fails_without_evaluating_arguments() {
    let program = let_in(
        "f",
        fun(&["a", "b"], var("a")),
        call(var("f"), vec![print(num(1))]),
    );
    let (result, out) = run(&program, u64::MAX);
    match result {
        Some(Err(e)) => assert!(matches!(e.kind, ErrorKind::InvalidNumberOfArguments(_, _))),
        _ => panic!("expected a failure"),
    }
    assert!(out.is_empty());
    let too_many = call(fun(&[], num(1)), vec![num(1), num(2)]);
    assert!(matches!(error_of(too_many).kind, ErrorKind::InvalidNumberOfArguments(_, _)));
}

#[test]
fn print_returns_its_operand() {
    let (result, out) = run(&print(print(num(1))), u64::MAX);
    assert!(matches!(result, Some(Ok(Val::Int(1)))));
    assert_eq!(out, vec!["1".to_string(), "1".to_string()]);
    assert_eq!(value_of(print(pair(string("a"), num(2)))), Val::Tuple((
        Box::new(Val::Str("a".to_string())),
        Box::new(Val::Int(2))
    )));
}

#[test]
fn closures_are_never_equal() {
    let f = value_of(fun(&[], num(1)));
    let g = value_of(fun(&[], num(1)));
    assert!(f != g);
    assert!(f != f);
    assert!(f != Val::Int(1));
    assert!(Val::Int(1) != f);
    assert!(Val::Int(3) == Val::Int(3));
    let t = Val::Tuple((Box::new(Val::Int(1)), Box::new(Val::Str("s".to_string()))));
    let u = Val::Tuple((Box::new(Val::Int(1)), Box::new(Val::Str("s".to_string()))));
    assert!(t == u);
}

#[test]
fn projection_of_a_non_pair_points_at_the_operand() {
    let mut operand = num(1);
    if let Term::Int(i) = &mut operand {
        i.location = at(6, 7);
    }
    let program = Term::First(Box::new(First { value: operand, location: at(0, 8) }));
    let e = error_of(program);
    assert!(matches!(e.kind, ErrorKind::ArgumentError));
    assert_eq!(e.location, at(6, 7));
    assert_eq!(e.to_string(), "não é uma tupla");
    let e = error_of(second(string("x")));
    assert!(matches!(e.kind, ErrorKind::ArgumentError));
    assert_eq!(value_of(first(pair(num(1), num(2)))), Val::Int(1));
    assert_eq!(value_of(second(pair(num(1), num(2)))), Val::Int(2));
}

#[test]
fn condition_must_be_boolean() {
    let mut condition = num(1);
    if let Term::Int(i) = &mut condition {
        i.location = at(4, 5);
    }
    let e = error_of(if_else(condition, num(1), num(2)));
    assert!(matches!(e.kind, ErrorKind::ArgumentError));
    assert_eq!(e.location, at(4, 5));
    assert_eq!(value_of(if_else(boolean(false), num(1), num(2))), Val::Int(2));
}

#[test]
fn calling_a_non_function_fails_at_the_call() {
    let program = Term::Call(Box::new(Call { callee: num(1), arguments: vec![], location: at(2, 9) }));
    let e = error_of(program);
    assert!(matches!(e.kind, ErrorKind::ArgumentError));
    assert_eq!(e.location, at(2, 9));
    assert_eq!(e.to_string(), "não é uma função");
}

#[test]
fn unknown_identifier_names_the_reference() {
    let program = Term::Var(Var { text: "nope".to_string(), location: at(1, 5) });
    let e = error_of(program);
    match &e.kind {
        ErrorKind::UnknowIdentifier(v) => assert_eq!(v.text, "nope"),
        _ => panic!("wrong kind"),
    }
    assert_eq!(e.location, at(1, 5));
    assert_eq!(e.to_string(), "identificador não encontrado");
}

#[test]
fn logical_operators_evaluate_both_sides() {
    let program = bin(
        print(boolean(false)),
        BinaryOp::And,
        print(boolean(true)),
    );
    assert_eq!(rinha(program), "false\ntrue");
}

#[test]
fn binding_inside_a_closure_sees_later_bindings() {
    // let g = fn () => { y }; let y = 5; g()
    let program = let_in(
        "g",
        fun(&[], var("y")),
        let_in("y", num(5), call(var("g"), vec![])),
    );
    assert_eq!(value_of(program), Val::Int(5));
}

#[test]
fn running_out_of_fuel_stops() {
    // let loop = fn (n) => { loop(n) }; loop(1)
    let program = let_in(
        "loop",
        fun(&["n"], call(var("loop"), vec![var("n")])),
        call(var("loop"), vec![num(1)]),
    );
    assert!(run(&program, 50).0.is_none());
    assert_eq!(value_of(call(fun(&[], num(1)), vec![])), Val::Int(1));
    assert!(run(&call(fun(&[], num(1)), vec![]), 0).0.is_none());
}

#[test]
fn printed_text_of_values() {
    assert_eq!(Val::Int(i32::MIN).to_string(), "-2147483648");
    assert_eq!(Val::Int(0).to_string(), "0");
    assert_eq!(Val::Int(1234567).to_string(), "1234567");
    assert_eq!(Val::Bool(true).to_string(), "true");
    let nested = Val::Tuple((
        Box::new(Val::Tuple((Box::new(Val::Int(1)), Box::new(Val::Bool(false))))),
        Box::new(Val::Str("s".to_string())),
    ));
    assert_eq!(nested.to_string(), "((1, false), s)");
}
