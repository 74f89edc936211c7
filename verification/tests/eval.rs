//! Behavioral tests: trees are compiled and their programs executed with
//! the IEEE-754 double operations, which the verified library leaves to
//! its host.

use funcalg::func::{
    Func, FuncAcos, FuncAsin, FuncAtan, FuncConst, FuncCos, FuncExpA, FuncExpE, FuncIdem,
    FuncLogA, FuncLogE, FuncNthrt, FuncPow, FuncProd, FuncQbrt, FuncSin, FuncSqrt, FuncSum,
    FuncTan, Node,
};
use funcalg::program::{compile, Instr};

fn binop(stack: &mut Vec<f64>, op: impl Fn(f64, f64) -> f64) {
    let b = stack.pop().expect("binary instruction on a short stack");
    let a = stack.pop().expect("binary instruction on a short stack");
    stack.push(op(a, b));
}

fn unop(stack: &mut Vec<f64>, op: impl Fn(f64) -> f64) {
    let a = stack.pop().expect("unary instruction on an empty stack");
    stack.push(op(a));
}

/// Runs the compiled program of `e` at `x` with double arithmetic. The
/// compiler's correctness theorem rules the stack underflows out.
fn eval(e: &Node, x: f64) -> f64 {
    let prog = compile(e);
    let mut stack: Vec<f64> = Vec::new();
    for i in prog {
        match i {
            Instr::PushConst(c) => stack.push(f64::from_bits(c)),
            Instr::PushInput => stack.push(x),
            Instr::Add => binop(&mut stack, |a, b| a + b),
            Instr::Mul => binop(&mut stack, |a, b| a * b),
            Instr::Pow => binop(&mut stack, |a, b| a.powf(b)),
            Instr::Div => binop(&mut stack, |a, b| a / b),
            Instr::Log => binop(&mut stack, |a, b| a.log(b)),
            Instr::Ln => unop(&mut stack, |a| a.ln()),
            Instr::Sin => unop(&mut stack, |a| a.sin()),
            Instr::Cos => unop(&mut stack, |a| a.cos()),
            Instr::Tan => unop(&mut stack, |a| a.tan()),
            Instr::Asin => unop(&mut stack, |a| a.asin()),
            Instr::Acos => unop(&mut stack, |a| a.acos()),
            Instr::Atan => unop(&mut stack, |a| a.atan()),
            Instr::Sqrt => unop(&mut stack, |a| a.sqrt()),
            Instr::Cbrt => unop(&mut stack, |a| a.cbrt()),
        }
    }
    assert_eq!(stack.len(), 1);
    stack[0]
}

fn constant(c: f64) -> Node {
    Node::Const(FuncConst::new(c.to_bits()))
}

fn identity() -> Node {
    Node::Idem(FuncIdem::new())
}

fn nth_root(n: f64, f: Node) -> Node {
    Node::Nthrt(FuncNthrt::new(n.to_bits(), f).expect("nonzero degree"))
}

#[test]
fn identity_returns_its_input() {
    assert_eq!(eval(&identity(), 17.25), 17.25);
    assert_eq!(eval(&identity(), -3.5), -3.5);
    assert_eq!(eval(&identity(), 0.0), 0.0);
}

#[test]
fn constant_ignores_its_input() {
    assert_eq!(eval(&constant(42.5), 17.25), 42.5);
    assert_eq!(eval(&constant(42.5), -1000.0), 42.5);
    assert_eq!(eval(&constant(-7.0), 0.0), -7.0);
}

#[test]
fn abstract_node_returns_zero() {
    assert_eq!(eval(&Node::Abstract(Func::new()), 123.0), 0.0);
}

#[test]
fn sum_adds_child_values() {
    let s = Node::Sum(FuncSum::new(identity(), constant(5.0)));
    assert_eq!(eval(&s, 3.0), 8.0);
}

#[test]
fn sum_matches_host_addition() {
    let s = Node::Sum(FuncSum::new(constant(0.1), constant(0.2)));
    assert_eq!(eval(&s, 0.0), 0.1 + 0.2);
}

#[test]
fn product_multiplies_child_values() {
    let p = Node::Prod(FuncProd::new(identity(), identity()));
    assert_eq!(eval(&p, 4.0), 16.0);
}

#[test]
fn product_matches_host_multiplication() {
    let p = Node::Prod(FuncProd::new(constant(0.1), constant(0.3)));
    assert_eq!(eval(&p, 0.0), 0.1 * 0.3);
}

#[test]
fn power_cubes() {
    let p = Node::Pow(FuncPow::new(identity(), 3.0f64.to_bits()));
    assert_eq!(eval(&p, 2.0), 8.0);
}

#[test]
fn integer_powers_agree_with_repeated_multiplication() {
    let x = 1.7f64;
    for n in 1..6u32 {
        let p = Node::Pow(FuncPow::new(identity(), f64::from(n).to_bits()));
        let mut by_hand = 1.0f64;
        for _ in 0..n {
            by_hand *= x;
        }
        assert!((eval(&p, x) - by_hand).abs() < 1e-9);
    }
}

#[test]
fn exponential_with_base_two() {
    let e = Node::ExpA(FuncExpA::new(2.0f64.to_bits(), identity()));
    assert_eq!(eval(&e, 10.0), 1024.0);
}

#[test]
fn natural_exponential_uses_child_value() {
    let e = Node::ExpE(FuncExpE::new(constant(2.5)));
    assert!((eval(&e, 0.0) - 2.5f64.exp()).abs() < 1e-12);
}

#[test]
fn log_base_two_of_identity() {
    let l = Node::LogA(FuncLogA::new(2.0f64.to_bits(), identity()));
    assert!((eval(&l, 8.0) - 3.0).abs() < 1e-12);
}

#[test]
fn natural_log_and_exponential_round_trip() {
    for v in [-2.0, 0.0, 0.5, 3.25] {
        let round = Node::LogE(FuncLogE::new(Node::ExpE(FuncExpE::new(constant(v)))));
        assert!((eval(&round, 0.7) - v).abs() < 1e-9);
    }
}

#[test]
fn sine_of_zero_is_zero() {
    let s = Node::Sin(FuncSin::new(identity()));
    assert_eq!(eval(&s, 0.0), 0.0);
}

#[test]
fn trigonometric_family_follows_the_host() {
    let x = 0.4f64;
    assert_eq!(eval(&Node::Cos(FuncCos::new(identity())), x), x.cos());
    assert_eq!(eval(&Node::Tan(FuncTan::new(identity())), x), x.tan());
    assert_eq!(eval(&Node::Asin(FuncAsin::new(identity())), x), x.asin());
    assert_eq!(eval(&Node::Acos(FuncAcos::new(identity())), x), x.acos());
    assert_eq!(eval(&Node::Atan(FuncAtan::new(identity())), x), x.atan());
}

#[test]
fn square_root_of_nine() {
    let r = Node::Sqrt(FuncSqrt::new(identity()));
    assert_eq!(eval(&r, 9.0), 3.0);
}

#[test]
fn cube_root_of_negative_twenty_seven() {
    let r = Node::Qbrt(FuncQbrt::new(constant(-27.0)));
    assert!((eval(&r, 0.0) + 3.0).abs() < 1e-12);
}

#[test]
fn nth_root_of_identity() {
    let r = nth_root(2.0, identity());
    assert_eq!(eval(&r, 9.0), 3.0);
}

#[test]
fn nth_root_matches_reciprocal_power() {
    for (n, v) in [(3.0, 7.5), (2.0, 9.0), (-2.0, 4.0), (5.0, 1.25)] {
        let root = nth_root(n, constant(v));
        let power = Node::Pow(FuncPow::new(constant(v), (1.0 / n).to_bits()));
        let a = eval(&root, 0.0);
        let b = eval(&power, 0.0);
        assert_eq!(a.to_bits(), b.to_bits());
    }
}

#[test]
fn square_root_of_negative_constant_is_nan() {
    let r = Node::Sqrt(FuncSqrt::new(constant(-1.0)));
    assert!(eval(&r, 123.0).is_nan());
    assert!(eval(&r, -5.0).is_nan());
}

#[test]
fn arc_sine_out_of_range_is_nan() {
    let a = Node::Asin(FuncAsin::new(constant(2.0)));
    assert!(eval(&a, 0.25).is_nan());
}

#[test]
fn log_of_negative_value_propagates_nan() {
    let l = Node::LogE(FuncLogE::new(constant(-3.0)));
    let s = Node::Sum(FuncSum::new(l, constant(1.0)));
    assert!(eval(&s, 0.0).is_nan());
}

#[test]
fn nested_expression_evaluates_inside_out() {
    // sin(x) * sqrt(x + 5), at x = 4: sin(4) * 3
    let inner = Node::Sum(FuncSum::new(identity(), constant(5.0)));
    let tree = Node::Prod(FuncProd::new(
        Node::Sin(FuncSin::new(identity())),
        Node::Sqrt(FuncSqrt::new(inner)),
    ));
    assert_eq!(eval(&tree, 4.0), 4.0f64.sin() * 3.0);
}
