//! Construction-time behavior: the bit-pattern constants, the validating
//! n-th root constructor, and the shape of compiled programs.

use funcalg::bits::{bits_are_zero, E_BITS, NEG_ZERO_BITS, ONE_BITS, ZERO_BITS};
use funcalg::func::{Func, FuncConst, FuncIdem, FuncNthrt, FuncSum, FuncType, Node};
use funcalg::program::{compile, Instr};

#[test]
fn bit_constants_match_the_host_encoding() {
    assert_eq!(ZERO_BITS, 0.0f64.to_bits());
    assert_eq!(NEG_ZERO_BITS, (-0.0f64).to_bits());
    assert_eq!(ONE_BITS, 1.0f64.to_bits());
    assert_eq!(E_BITS, std::f64::consts::E.to_bits());
}

#[test]
fn zero_test_agrees_with_double_equality() {
    assert!(bits_are_zero(0.0f64.to_bits()));
    assert!(bits_are_zero((-0.0f64).to_bits()));
    assert!(!bits_are_zero(1.0f64.to_bits()));
    assert!(!bits_are_zero(f64::NAN.to_bits()));
    assert_eq!(bits_are_zero(f64::NAN.to_bits()), f64::NAN == 0.0);
}

#[test]
fn nth_root_with_zero_degree_is_refused() {
    let r = FuncNthrt::new(0.0f64.to_bits(), Node::Idem(FuncIdem::new()));
    assert!(r.is_none());
}

#[test]
fn nth_root_with_negative_zero_degree_is_refused() {
    let r = FuncNthrt::new((-0.0f64).to_bits(), Node::Idem(FuncIdem::new()));
    assert!(r.is_none());
}

#[test]
fn nth_root_with_nonzero_degree_is_constructed() {
    let r = FuncNthrt::new(2.0f64.to_bits(), Node::Idem(FuncIdem::new()));
    let r = r.expect("a nonzero degree constructs the node");
    assert_eq!(r.n, 2.0f64.to_bits());
}

#[test]
fn nth_root_with_nan_degree_is_constructed() {
    // Not-a-number compares unequal to zero, so, as for doubles at the
    // host, it passes the nonzero check.
    let r = FuncNthrt::new(f64::NAN.to_bits(), Node::Idem(FuncIdem::new()));
    assert!(r.is_some());
}

#[test]
fn abstract_node_carries_its_tag() {
    let f = Func::new();
    assert_eq!(f.f_type, FuncType::Abstract);
    let i = FuncIdem::new();
    assert_eq!(i.f_type, FuncType::Idem);
}

#[test]
fn constant_node_stores_its_value() {
    let k = FuncConst::new(42.5f64.to_bits());
    assert_eq!(k.c, 42.5f64.to_bits());
}

#[test]
fn sum_owns_its_children() {
    let s = FuncSum::new(
        Node::Idem(FuncIdem::new()),
        Node::Const(FuncConst::new(5.0f64.to_bits())),
    );
    assert!(matches!(*s.f, Node::Idem(_)));
    assert!(matches!(*s.g, Node::Const(FuncConst { c }) if c == 5.0f64.to_bits()));
}

#[test]
fn compile_emits_postfix_order() {
    let tree = Node::Sum(FuncSum::new(
        Node::Idem(FuncIdem::new()),
        Node::Const(FuncConst::new(5.0f64.to_bits())),
    ));
    let prog = compile(&tree);
    assert_eq!(
        prog,
        vec![Instr::PushInput, Instr::PushConst(5.0f64.to_bits()), Instr::Add],
    );
}

#[test]
fn compile_of_nth_root_divides_one_by_the_degree() {
    let tree = Node::Nthrt(
        FuncNthrt::new(2.0f64.to_bits(), Node::Idem(FuncIdem::new())).expect("nonzero degree"),
    );
    let prog = compile(&tree);
    assert_eq!(
        prog,
        vec![
            Instr::PushInput,
            Instr::PushConst(ONE_BITS),
            Instr::PushConst(2.0f64.to_bits()),
            Instr::Div,
            Instr::Pow,
        ],
    );
}
