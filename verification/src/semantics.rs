//! The meaning of a tree, abstract in the numeric primitives.
//!
//! Verified code cannot perform double-precision arithmetic, so the
//! semantics does not fix what "add" or "sine" do to a bit pattern.
//! Instead an [`Interp`] packs one ghost function per primitive, and
//! [`denote`] gives every node's value at an input under a chosen
//! interpretation: a combinator applies its primitive to its child
//! value(s), exactly as the catalogue describes. Everything proved of
//! [`denote`] therefore holds under every interpretation, the host's
//! IEEE-754 operations included.

use vstd::prelude::*;

use crate::bits::{E_BITS, ONE_BITS, ZERO_BITS};
use crate::func::{FuncConst, FuncNthrt, FuncPow, FuncProd, FuncSum, Node};

verus! {

/// One ghost function per numeric primitive the catalogue applies.
///
/// Binary primitives take their operands in the order the catalogue
/// writes them: `pow` takes base then exponent, `div` dividend then
/// divisor, `log` value then base.
pub struct Interp {
    pub add: spec_fn(u64, u64) -> u64,
    pub mul: spec_fn(u64, u64) -> u64,
    pub pow: spec_fn(u64, u64) -> u64,
    pub div: spec_fn(u64, u64) -> u64,
    pub log: spec_fn(u64, u64) -> u64,
    pub ln: spec_fn(u64) -> u64,
    pub sin: spec_fn(u64) -> u64,
    pub cos: spec_fn(u64) -> u64,
    pub tan: spec_fn(u64) -> u64,
    pub asin: spec_fn(u64) -> u64,
    pub acos: spec_fn(u64) -> u64,
    pub atan: spec_fn(u64) -> u64,
    pub sqrt: spec_fn(u64) -> u64,
    pub cbrt: spec_fn(u64) -> u64,
}

/// The value of the tree `e` at the input `x` under the interpretation `m`.
///
/// Leaves terminate the recursion; every combinator evaluates its child
/// node(s) first and applies its own primitive to the child value(s). The
/// natural exponential and logarithm fix their base to Euler's number, and
/// the n-th root raises its child value to the reciprocal of its degree.
pub open spec fn denote(e: Node, x: u64, m: Interp) -> u64
    decreases e,
{
    match e {
        Node::Abstract(_) => ZERO_BITS,
        Node::Const(k) => k.c,
        Node::Idem(_) => x,
        Node::Sum(s) => (m.add)(denote(*s.f, x, m), denote(*s.g, x, m)),
        Node::Prod(p) => (m.mul)(denote(*p.f, x, m), denote(*p.g, x, m)),
        Node::Pow(p) => (m.pow)(denote(*p.f, x, m), p.n),
        Node::ExpA(e) => (m.pow)(e.a, denote(*e.f, x, m)),
        Node::ExpE(e) => (m.pow)(E_BITS, denote(*e.f, x, m)),
        Node::LogA(l) => (m.log)(denote(*l.f, x, m), l.b),
        Node::LogE(l) => (m.ln)(denote(*l.f, x, m)),
        Node::Sin(t) => (m.sin)(denote(*t.f, x, m)),
        Node::Cos(t) => (m.cos)(denote(*t.f, x, m)),
        Node::Tan(t) => (m.tan)(denote(*t.f, x, m)),
        Node::Asin(t) => (m.asin)(denote(*t.f, x, m)),
        Node::Acos(t) => (m.acos)(denote(*t.f, x, m)),
        Node::Atan(t) => (m.atan)(denote(*t.f, x, m)),
        Node::Sqrt(r) => (m.sqrt)(denote(*r.f, x, m)),
        Node::Qbrt(r) => (m.cbrt)(denote(*r.f, x, m)),
        Node::Nthrt(r) => (m.pow)(denote(*r.f, x, m), (m.div)(ONE_BITS, r.n)),
    }
}

/// The identity returns its input unchanged: under every interpretation
/// and at every input, an identity node's value is the input itself.
pub proof fn lemma_identity_eval(e: Node, x: u64, m: Interp)
    requires
        e is Idem,
    ensures
        denote(e, x, m) == x,
{
}

/// A constant function is independent of its input: under every
/// interpretation and at every input, a constant node's value is the
/// constant it holds.
pub proof fn lemma_constant_eval(k: FuncConst, x: u64, m: Interp)
    ensures
        denote(Node::Const(k), x, m) == k.c,
{
}

/// A sum node's value is the interpretation's addition applied to its two
/// child values, whatever nodes the children are.
pub proof fn lemma_sum_eval(s: FuncSum, x: u64, m: Interp)
    ensures
        denote(Node::Sum(s), x, m) == (m.add)(denote(*s.f, x, m), denote(*s.g, x, m)),
{
}

/// A product node's value is the interpretation's multiplication applied
/// to its two child values, whatever nodes the children are.
pub proof fn lemma_product_eval(p: FuncProd, x: u64, m: Interp)
    ensures
        denote(Node::Prod(p), x, m) == (m.mul)(denote(*p.f, x, m), denote(*p.g, x, m)),
{
}

/// The n-th root is the same computation as a power with the reciprocal
/// exponent: a root node of degree `n` and a power node whose exponent is
/// one divided by `n` have the same value on the same child, under every
/// interpretation and at every input.
pub proof fn lemma_nth_root_is_power(r: FuncNthrt, p: FuncPow, x: u64, m: Interp)
    requires
        *p.f == *r.f,
        p.n == (m.div)(ONE_BITS, r.n),
    ensures
        denote(Node::Nthrt(r), x, m) == denote(Node::Pow(p), x, m),
{
}

} // verus!
