//! The node catalogue of the function algebra.
//!
//! A [`Node`] is a finite tree: a leaf (a constant, the identity) or a
//! combinator that exclusively owns one or two child nodes together with
//! its scalar parameters. Scalars are IEEE-754 binary64 bit patterns (see
//! [`crate::bits`]). Nodes are immutable after construction; the only
//! structural precondition in the whole catalogue is that an n-th root's
//! degree is nonzero, which [`FuncNthrt::new`] enforces by refusing to
//! construct the node.

use vstd::prelude::*;

use crate::bits::is_zero_bits;

verus! {

/// The kind tags of the node catalogue.
#[derive(Clone, Copy, Debug, PartialEq, Eq, Structural)]
pub enum FuncType {
    Abstract,
    Const,
    Idem,
    Sum,
    Prod,
    Pow,
    ExpA,
    ExpE,
    LogA,
    LogE,
    TrigSin,
    TrigCos,
    TrigTan,
    TrigAsin,
    TrigAcos,
    TrigAtan,
    Sqrt,
    Qbrt,
    Nthrt,
}

/// The abstract placeholder node; it evaluates to zero at every input.
#[derive(Clone, Debug)]
pub struct Func {
    pub f_type: FuncType,
}

impl Func {
    pub fn new() -> (r: Self)
        ensures
            r.f_type == FuncType::Abstract,
            wf(Node::Abstract(r)),
    {
        Self { f_type: FuncType::Abstract }
    }
}

/// A constant function: at every input it returns `c`.
#[derive(Clone, Debug)]
pub struct FuncConst {
    pub c: u64,
}

impl FuncConst {
    pub fn new(c: u64) -> (r: Self)
        ensures
            r.c == c,
            wf(Node::Const(r)),
    {
        Self { c }
    }
}

/// The identity function: it returns its input unchanged.
#[derive(Clone, Debug)]
pub struct FuncIdem {
    pub f_type: FuncType,
}

impl FuncIdem {
    pub fn new() -> (r: Self)
        ensures
            r.f_type == FuncType::Idem,
            wf(Node::Idem(r)),
    {
        Self { f_type: FuncType::Idem }
    }
}

/// The sum of two functions `f` and `g`: at `x` it returns `f(x) + g(x)`.
#[derive(Debug)]
pub struct FuncSum {
    pub f: Box<Node>,
    pub g: Box<Node>,
}

impl FuncSum {
    pub fn new(f: Node, g: Node) -> (r: Self)
        ensures
            *r.f == f,
            *r.g == g,
            wf(f) && wf(g) ==> wf(Node::Sum(r)),
    {
        Self { f: Box::new(f), g: Box::new(g) }
    }
}

/// The product of two functions `f` and `g`: at `x` it returns `f(x) * g(x)`.
#[derive(Debug)]
pub struct FuncProd {
    pub f: Box<Node>,
    pub g: Box<Node>,
}

impl FuncProd {
    pub fn new(f: Node, g: Node) -> (r: Self)
        ensures
            *r.f == f,
            *r.g == g,
            wf(f) && wf(g) ==> wf(Node::Prod(r)),
    {
        Self { f: Box::new(f), g: Box::new(g) }
    }
}

/// A power of a function: at `x` it returns `f(x)` raised to the fixed
/// exponent `n`.
#[derive(Debug)]
pub struct FuncPow {
    pub f: Box<Node>,
    pub n: u64,
}

impl FuncPow {
    pub fn new(f: Node, n: u64) -> (r: Self)
        ensures
            *r.f == f,
            r.n == n,
            wf(f) ==> wf(Node::Pow(r)),
    {
        Self { f: Box::new(f), n }
    }
}

/// An exponential with a fixed base: at `x` it returns `a` raised to `f(x)`.
#[derive(Debug)]
pub struct FuncExpA {
    pub a: u64,
    pub f: Box<Node>,
}

impl FuncExpA {
    pub fn new(a: u64, f: Node) -> (r: Self)
        ensures
            r.a == a,
            *r.f == f,
            wf(f) ==> wf(Node::ExpA(r)),
    {
        Self { a, f: Box::new(f) }
    }
}

/// The natural exponential: at `x` it returns Euler's number raised to `f(x)`.
#[derive(Debug)]
pub struct FuncExpE {
    pub f: Box<Node>,
}

impl FuncExpE {
    pub fn new(f: Node) -> (r: Self)
        ensures
            *r.f == f,
            wf(f) ==> wf(Node::ExpE(r)),
    {
        Self { f: Box::new(f) }
    }
}

/// A logarithm with a fixed base: at `x` it returns the base-`b` logarithm
/// of `f(x)`.
#[derive(Debug)]
pub struct FuncLogA {
    pub b: u64,
    pub f: Box<Node>,
}

impl FuncLogA {
    pub fn new(b: u64, f: Node) -> (r: Self)
        ensures
            r.b == b,
            *r.f == f,
            wf(f) ==> wf(Node::LogA(r)),
    {
        Self { b, f: Box::new(f) }
    }
}

/// The natural logarithm: at `x` it returns the logarithm of `f(x)` in base
/// Euler's number.
#[derive(Debug)]
pub struct FuncLogE {
    pub f: Box<Node>,
}

impl FuncLogE {
    pub fn new(f: Node) -> (r: Self)
        ensures
            *r.f == f,
            wf(f) ==> wf(Node::LogE(r)),
    {
        Self { f: Box::new(f) }
    }
}

/// The sine of a function: at `x` it returns the sine of `f(x)`, the angle
/// read in radians.
#[derive(Debug)]
pub struct FuncSin {
    pub f: Box<Node>,
}

impl FuncSin {
    pub fn new(f: Node) -> (r: Self)
        ensures
            *r.f == f,
            wf(f) ==> wf(Node::Sin(r)),
    {
        Self { f: Box::new(f) }
    }
}

/// The cosine of a function: at `x` it returns the cosine of `f(x)`.
#[derive(Debug)]
pub struct FuncCos {
    pub f: Box<Node>,
}

impl FuncCos {
    pub fn new(f: Node) -> (r: Self)
        ensures
            *r.f == f,
            wf(f) ==> wf(Node::Cos(r)),
    {
        Self { f: Box::new(f) }
    }
}

/// The tangent of a function: at `x` it returns the tangent of `f(x)`.
#[derive(Debug)]
pub struct FuncTan {
    pub f: Box<Node>,
}

impl FuncTan {
    pub fn new(f: Node) -> (r: Self)
        ensures
            *r.f == f,
            wf(f) ==> wf(Node::Tan(r)),
    {
        Self { f: Box::new(f) }
    }
}

/// The arc sine of a function: at `x` it returns the arc sine of `f(x)`.
#[derive(Debug)]
pub struct FuncAsin {
    pub f: Box<Node>,
}

impl FuncAsin {
    pub fn new(f: Node) -> (r: Self)
        ensures
            *r.f == f,
            wf(f) ==> wf(Node::Asin(r)),
    {
        Self { f: Box::new(f) }
    }
}

/// The arc cosine of a function: at `x` it returns the arc cosine of `f(x)`.
#[derive(Debug)]
pub struct FuncAcos {
    pub f: Box<Node>,
}

impl FuncAcos {
    pub fn new(f: Node) -> (r: Self)
        ensures
            *r.f == f,
            wf(f) ==> wf(Node::Acos(r)),
    {
        Self { f: Box::new(f) }
    }
}

/// The arc tangent of a function: at `x` it returns the arc tangent of `f(x)`.
#[derive(Debug)]
pub struct FuncAtan {
    pub f: Box<Node>,
}

impl FuncAtan {
    pub fn new(f: Node) -> (r: Self)
        ensures
            *r.f == f,
            wf(f) ==> wf(Node::Atan(r)),
    {
        Self { f: Box::new(f) }
    }
}

/// The square root of a function: at `x` it returns the square root of `f(x)`.
#[derive(Debug)]
pub struct FuncSqrt {
    pub f: Box<Node>,
}

impl FuncSqrt {
    pub fn new(f: Node) -> (r: Self)
        ensures
            *r.f == f,
            wf(f) ==> wf(Node::Sqrt(r)),
    {
        Self { f: Box::new(f) }
    }
}

/// The cube root of a function: at `x` it returns the cube root of `f(x)`.
#[derive(Debug)]
pub struct FuncQbrt {
    pub f: Box<Node>,
}

impl FuncQbrt {
    pub fn new(f: Node) -> (r: Self)
        ensures
            *r.f == f,
            wf(f) ==> wf(Node::Qbrt(r)),
    {
        Self { f: Box::new(f) }
    }
}

/// The n-th root of a function: at `x` it returns `f(x)` raised to the
/// reciprocal of the fixed degree `n`.
///
/// The degree is the one structural parameter the algebra validates: a zero
/// degree would put a zero in the reciprocal's divisor, so [`FuncNthrt::new`]
/// refuses it and produces no node.
#[derive(Debug)]
pub struct FuncNthrt {
    pub n: u64,
    pub f: Box<Node>,
}

impl FuncNthrt {
    /// Constructs the node, refusing a degree whose bit pattern encodes
    /// zero. The comparison is the one a double equality would make: both
    /// encodings of zero are refused, every other pattern (not-a-number
    /// included) is accepted.
    pub fn new(n: u64, f: Node) -> (r: Option<Self>)
        ensures
            r is Some <==> !is_zero_bits(n),
            r matches Some(q) ==> q.n == n && *q.f == f && (wf(f)
                ==> wf(Node::Nthrt(q))),
    {
        if crate::bits::bits_are_zero(n) {
            None
        } else {
            Some(Self { n, f: Box::new(f) })
        }
    }
}

/// A node of the function algebra: a leaf or a combinator owning its child
/// node(s). The tree is finite and exclusively owned; evaluation (see
/// [`crate::semantics`] and [`crate::program`]) never mutates it.
#[derive(Debug)]
pub enum Node {
    Abstract(Func),
    Const(FuncConst),
    Idem(FuncIdem),
    Sum(FuncSum),
    Prod(FuncProd),
    Pow(FuncPow),
    ExpA(FuncExpA),
    ExpE(FuncExpE),
    LogA(FuncLogA),
    LogE(FuncLogE),
    Sin(FuncSin),
    Cos(FuncCos),
    Tan(FuncTan),
    Asin(FuncAsin),
    Acos(FuncAcos),
    Atan(FuncAtan),
    Sqrt(FuncSqrt),
    Qbrt(FuncQbrt),
    Nthrt(FuncNthrt),
}

/// Structural well-formedness: every n-th root inside the tree has a
/// nonzero degree. This is the only invariant the catalogue maintains.
/// Each constructor establishes it for the node it builds whenever its
/// children satisfy it, and nodes are immutable, so a tree built through
/// the constructors is well-formed for its whole life.
pub open spec fn wf(e: Node) -> bool
    decreases e,
{
    match e {
        Node::Abstract(_) => true,
        Node::Const(_) => true,
        Node::Idem(_) => true,
        Node::Sum(s) => wf(*s.f) && wf(*s.g),
        Node::Prod(p) => wf(*p.f) && wf(*p.g),
        Node::Pow(p) => wf(*p.f),
        Node::ExpA(e) => wf(*e.f),
        Node::ExpE(e) => wf(*e.f),
        Node::LogA(l) => wf(*l.f),
        Node::LogE(l) => wf(*l.f),
        Node::Sin(t) => wf(*t.f),
        Node::Cos(t) => wf(*t.f),
        Node::Tan(t) => wf(*t.f),
        Node::Asin(t) => wf(*t.f),
        Node::Acos(t) => wf(*t.f),
        Node::Atan(t) => wf(*t.f),
        Node::Sqrt(r) => wf(*r.f),
        Node::Qbrt(r) => wf(*r.f),
        Node::Nthrt(r) => !is_zero_bits(r.n) && wf(*r.f),
    }
}

} // verus!
