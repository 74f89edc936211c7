//! Compilation of trees to postfix programs, and its correctness.
//!
//! A [`Node`] tree is compiled to a sequence of stack instructions. The
//! machine ([`step`], [`run`]) is specified abstractly: each instruction
//! pushes a value or replaces the top value(s) of the stack with one
//! primitive applied to them, the primitives read from an [`Interp`].
//! The main theorem, [`lemma_compile_denotes`], proves that running a
//! compiled program from any stack pushes exactly the tree's denotation:
//! in particular the machine never meets an instruction with too few
//! operands, and ends with a single result. A host that executes the
//! instructions with the IEEE-754 double operations therefore computes,
//! step for step, the value the semantics assigns to the tree.

use vstd::prelude::*;

use crate::bits::{E_BITS, ONE_BITS, ZERO_BITS};
use crate::func::Node;
use crate::semantics::{denote, Interp};

verus! {

/// One instruction of the postfix evaluation machine.
///
/// `PushConst` and `PushInput` push a value; every other instruction pops
/// its operand(s) and pushes one result. A binary instruction pops its
/// second operand first: with `a` below `b` on the stack, `Pow` computes
/// `a` raised to `b`, `Div` computes `a` divided by `b`, and `Log` the
/// base-`b` logarithm of `a`.
#[derive(Clone, Copy, Debug, PartialEq, Eq, Structural)]
pub enum Instr {
    /// Push the held bit pattern.
    PushConst(u64),
    /// Push the input the program is being evaluated at.
    PushInput,
    /// Pop two, push their sum.
    Add,
    /// Pop two, push their product.
    Mul,
    /// Pop exponent and base, push the power.
    Pow,
    /// Pop divisor and dividend, push the quotient.
    Div,
    /// Pop base and value, push the logarithm.
    Log,
    /// Pop one, push its natural logarithm.
    Ln,
    /// Pop one, push its sine.
    Sin,
    /// Pop one, push its cosine.
    Cos,
    /// Pop one, push its tangent.
    Tan,
    /// Pop one, push its arc sine.
    Asin,
    /// Pop one, push its arc cosine.
    Acos,
    /// Pop one, push its arc tangent.
    Atan,
    /// Pop one, push its square root.
    Sqrt,
    /// Pop one, push its cube root.
    Cbrt,
}

/// The unary primitive an instruction applies, if it is a unary one.
pub open spec fn unary_op(i: Instr, m: Interp) -> Option<spec_fn(u64) -> u64> {
    match i {
        Instr::Ln => Some(m.ln),
        Instr::Sin => Some(m.sin),
        Instr::Cos => Some(m.cos),
        Instr::Tan => Some(m.tan),
        Instr::Asin => Some(m.asin),
        Instr::Acos => Some(m.acos),
        Instr::Atan => Some(m.atan),
        Instr::Sqrt => Some(m.sqrt),
        Instr::Cbrt => Some(m.cbrt),
        _ => None,
    }
}

/// The binary primitive an instruction applies, if it is a binary one.
pub open spec fn binary_op(i: Instr, m: Interp) -> Option<spec_fn(u64, u64) -> u64> {
    match i {
        Instr::Add => Some(m.add),
        Instr::Mul => Some(m.mul),
        Instr::Pow => Some(m.pow),
        Instr::Div => Some(m.div),
        Instr::Log => Some(m.log),
        _ => None,
    }
}

/// One step of the machine: the stack after executing `i` on `stk`, at
/// input `x` under interpretation `m`, or `None` if `i` needs more
/// operands than the stack holds.
pub open spec fn step(stk: Seq<u64>, i: Instr, x: u64, m: Interp) -> Option<Seq<u64>> {
    match i {
        Instr::PushConst(c) => Some(stk.push(c)),
        Instr::PushInput => Some(stk.push(x)),
        _ => match unary_op(i, m) {
            Some(op) => {
                if stk.len() >= 1 {
                    Some(stk.drop_last().push(op(stk.last())))
                } else {
                    None
                }
            },
            None => {
                let op = binary_op(i, m)->Some_0;
                if stk.len() >= 2 {
                    Some(stk.drop_last().drop_last().push(op(stk[stk.len() - 2], stk.last())))
                } else {
                    None
                }
            },
        },
    }
}

/// Runs the whole program in order from the stack `stk`; `None` as soon
/// as one step underflows.
pub open spec fn run(prog: Seq<Instr>, stk: Seq<u64>, x: u64, m: Interp) -> Option<Seq<u64>>
    decreases prog.len(),
{
    if prog.len() == 0 {
        Some(stk)
    } else {
        match step(stk, prog[0], x, m) {
            Some(stk2) => run(prog.subrange(1, prog.len() as int), stk2, x, m),
            None => None,
        }
    }
}

/// The postfix program of a tree: children first, the node's own
/// instruction(s) after, so that each combinator finds its child
/// value(s) on top of the stack.
pub open spec fn spec_compile(e: Node) -> Seq<Instr>
    decreases e,
{
    match e {
        Node::Abstract(_) => seq![Instr::PushConst(ZERO_BITS)],
        Node::Const(k) => seq![Instr::PushConst(k.c)],
        Node::Idem(_) => seq![Instr::PushInput],
        Node::Sum(s) => spec_compile(*s.f) + spec_compile(*s.g) + seq![Instr::Add],
        Node::Prod(p) => spec_compile(*p.f) + spec_compile(*p.g) + seq![Instr::Mul],
        Node::Pow(p) => spec_compile(*p.f) + seq![Instr::PushConst(p.n), Instr::Pow],
        Node::ExpA(e) => seq![Instr::PushConst(e.a)] + spec_compile(*e.f) + seq![Instr::Pow],
        Node::ExpE(e) => seq![Instr::PushConst(E_BITS)] + spec_compile(*e.f) + seq![Instr::Pow],
        Node::LogA(l) => spec_compile(*l.f) + seq![Instr::PushConst(l.b), Instr::Log],
        Node::LogE(l) => spec_compile(*l.f) + seq![Instr::Ln],
        Node::Sin(t) => spec_compile(*t.f) + seq![Instr::Sin],
        Node::Cos(t) => spec_compile(*t.f) + seq![Instr::Cos],
        Node::Tan(t) => spec_compile(*t.f) + seq![Instr::Tan],
        Node::Asin(t) => spec_compile(*t.f) + seq![Instr::Asin],
        Node::Acos(t) => spec_compile(*t.f) + seq![Instr::Acos],
        Node::Atan(t) => spec_compile(*t.f) + seq![Instr::Atan],
        Node::Sqrt(r) => spec_compile(*r.f) + seq![Instr::Sqrt],
        Node::Qbrt(r) => spec_compile(*r.f) + seq![Instr::Cbrt],
        Node::Nthrt(r) => spec_compile(*r.f)
            + seq![Instr::PushConst(ONE_BITS), Instr::PushConst(r.n), Instr::Div, Instr::Pow],
    }
}

/// Running a concatenation runs the two parts in order.
proof fn lemma_run_append(p: Seq<Instr>, q: Seq<Instr>, stk: Seq<u64>, x: u64, m: Interp)
    ensures
        run(p + q, stk, x, m) == (match run(p, stk, x, m) {
            Some(stk2) => run(q, stk2, x, m),
            None => None::<Seq<u64>>,
        }),
    decreases p.len(),
{
    if p.len() == 0 {
        assert(p + q =~= q);
    } else {
        assert((p + q)[0] == p[0]);
        assert((p + q).subrange(1, (p + q).len() as int) =~= p.subrange(1, p.len() as int) + q);
        match step(stk, p[0], x, m) {
            Some(stk2) => {
                lemma_run_append(p.subrange(1, p.len() as int), q, stk2, x, m);
            },
            None => {},
        }
    }
}

/// Running a single instruction is a single step.
proof fn lemma_run_one(i: Instr, stk: Seq<u64>, x: u64, m: Interp)
    ensures
        run(seq![i], stk, x, m) == step(stk, i, x, m),
{
    reveal_with_fuel(run, 2);
    let p = seq![i];
    assert(p.subrange(1, p.len() as int) =~= Seq::<Instr>::empty());
    match step(stk, i, x, m) {
        Some(stk2) => {},
        None => {},
    }
}

/// Compilation is correct: from any starting stack, the compiled program
/// of a tree runs without ever underflowing and pushes exactly the
/// tree's denotation, under every interpretation of the primitives and
/// at every input.
#[verifier::rlimit(50)]
pub proof fn lemma_compile_denotes(e: Node, stk: Seq<u64>, x: u64, m: Interp)
    ensures
        run(spec_compile(e), stk, x, m) == Some(stk.push(denote(e, x, m))),
    decreases e,
{
    match e {
        Node::Abstract(_) => {
            lemma_run_one(Instr::PushConst(ZERO_BITS), stk, x, m);
        },
        Node::Const(k) => {
            lemma_run_one(Instr::PushConst(k.c), stk, x, m);
        },
        Node::Idem(_) => {
            lemma_run_one(Instr::PushInput, stk, x, m);
        },
        Node::Sum(s) => {
            lemma_compile_denotes(*s.f, stk, x, m);
            lemma_compile_denotes(*s.g, stk.push(denote(*s.f, x, m)), x, m);
            lemma_binary_case(*s.f, *s.g, Instr::Add, stk, x, m);
        },
        Node::Prod(p) => {
            lemma_compile_denotes(*p.f, stk, x, m);
            lemma_compile_denotes(*p.g, stk.push(denote(*p.f, x, m)), x, m);
            lemma_binary_case(*p.f, *p.g, Instr::Mul, stk, x, m);
        },
        Node::Pow(p) => {
            let vf = denote(*p.f, x, m);
            lemma_compile_denotes(*p.f, stk, x, m);
            lemma_run_append(
                spec_compile(*p.f),
                seq![Instr::PushConst(p.n), Instr::Pow],
                stk,
                x,
                m,
            );
            lemma_run_two(Instr::PushConst(p.n), Instr::Pow, stk.push(vf), x, m);
            assert(stk.push(vf).push(p.n).drop_last().drop_last() =~= stk);
        },
        Node::ExpA(e2) => {
            lemma_compile_denotes(*e2.f, stk.push(e2.a), x, m);
            lemma_scaled_exp_case(e2.a, *e2.f, stk, x, m);
        },
        Node::ExpE(e2) => {
            lemma_compile_denotes(*e2.f, stk.push(E_BITS), x, m);
            lemma_scaled_exp_case(E_BITS, *e2.f, stk, x, m);
        },
        Node::LogA(l) => {
            let vf = denote(*l.f, x, m);
            lemma_compile_denotes(*l.f, stk, x, m);
            lemma_run_append(
                spec_compile(*l.f),
                seq![Instr::PushConst(l.b), Instr::Log],
                stk,
                x,
                m,
            );
            lemma_run_two(Instr::PushConst(l.b), Instr::Log, stk.push(vf), x, m);
            assert(stk.push(vf).push(l.b).drop_last().drop_last() =~= stk);
        },
        Node::LogE(l) => {
            lemma_compile_denotes(*l.f, stk, x, m);
            lemma_unary_case(*l.f, Instr::Ln, stk, x, m);
        },
        Node::Sin(t) => {
            lemma_compile_denotes(*t.f, stk, x, m);
            lemma_unary_case(*t.f, Instr::Sin, stk, x, m);
        },
        Node::Cos(t) => {
            lemma_compile_denotes(*t.f, stk, x, m);
            lemma_unary_case(*t.f, Instr::Cos, stk, x, m);
        },
        Node::Tan(t) => {
            lemma_compile_denotes(*t.f, stk, x, m);
            lemma_unary_case(*t.f, Instr::Tan, stk, x, m);
        },
        Node::Asin(t) => {
            lemma_compile_denotes(*t.f, stk, x, m);
            lemma_unary_case(*t.f, Instr::Asin, stk, x, m);
        },
        Node::Acos(t) => {
            lemma_compile_denotes(*t.f, stk, x, m);
            lemma_unary_case(*t.f, Instr::Acos, stk, x, m);
        },
        Node::Atan(t) => {
            lemma_compile_denotes(*t.f, stk, x, m);
            lemma_unary_case(*t.f, Instr::Atan, stk, x, m);
        },
        Node::Sqrt(r) => {
            lemma_compile_denotes(*r.f, stk, x, m);
            lemma_unary_case(*r.f, Instr::Sqrt, stk, x, m);
        },
        Node::Qbrt(r) => {
            lemma_compile_denotes(*r.f, stk, x, m);
            lemma_unary_case(*r.f, Instr::Cbrt, stk, x, m);
        },
        Node::Nthrt(r) => {
            reveal_with_fuel(run, 5);
            let vf = denote(*r.f, x, m);
            let tail = seq![
                Instr::PushConst(ONE_BITS),
                Instr::PushConst(r.n),
                Instr::Div,
                Instr::Pow,
            ];
            lemma_compile_denotes(*r.f, stk, x, m);
            lemma_run_append(spec_compile(*r.f), tail, stk, x, m);
            let s1 = stk.push(vf);
            assert(tail.subrange(1, tail.len() as int) =~= seq![
                Instr::PushConst(r.n),
                Instr::Div,
                Instr::Pow,
            ]);
            let t2 = seq![Instr::PushConst(r.n), Instr::Div, Instr::Pow];
            assert(t2.subrange(1, t2.len() as int) =~= seq![Instr::Div, Instr::Pow]);
            let s2 = s1.push(ONE_BITS).push(r.n);
            lemma_run_two(Instr::Div, Instr::Pow, s2, x, m);
            assert(s2.drop_last().drop_last() =~= s1);
            let s3 = s1.push((m.div)(ONE_BITS, r.n));
            assert(s3.drop_last().drop_last() =~= stk);
        },
    }
}

/// Evaluation always returns a value: started on an empty stack, the
/// compiled program of a tree runs to completion and leaves exactly the
/// tree's denotation as its one result. This is the form in which a host
/// executes a program, and it rules every stack underflow out.
pub proof fn lemma_compile_evaluates(e: Node, x: u64, m: Interp)
    ensures
        run(spec_compile(e), Seq::empty(), x, m) == Some(seq![denote(e, x, m)]),
{
    lemma_compile_denotes(e, Seq::empty(), x, m);
    assert(Seq::empty().push(denote(e, x, m)) =~= seq![denote(e, x, m)]);
}

/// The shared argument for a combinator that compiles its child and then
/// applies one unary instruction.
proof fn lemma_unary_case(f: Node, i: Instr, stk: Seq<u64>, x: u64, m: Interp)
    requires
        unary_op(i, m) is Some,
        run(spec_compile(f), stk, x, m) == Some(stk.push(denote(f, x, m))),
    ensures
        run(spec_compile(f) + seq![i], stk, x, m) == Some(
            stk.push((unary_op(i, m)->Some_0)(denote(f, x, m))),
        ),
{
    lemma_run_append(spec_compile(f), seq![i], stk, x, m);
    lemma_run_one(i, stk.push(denote(f, x, m)), x, m);
    assert(stk.push(denote(f, x, m)).drop_last() =~= stk);
}

/// The shared argument for a combinator that compiles both children and
/// then applies one binary instruction.
proof fn lemma_binary_case(f: Node, g: Node, i: Instr, stk: Seq<u64>, x: u64, m: Interp)
    requires
        binary_op(i, m) is Some,
        run(spec_compile(f), stk, x, m) == Some(stk.push(denote(f, x, m))),
        run(spec_compile(g), stk.push(denote(f, x, m)), x, m) == Some(
            stk.push(denote(f, x, m)).push(denote(g, x, m)),
        ),
    ensures
        run(spec_compile(f) + spec_compile(g) + seq![i], stk, x, m) == Some(
            stk.push((binary_op(i, m)->Some_0)(denote(f, x, m), denote(g, x, m))),
        ),
{
    let vf = denote(f, x, m);
    let vg = denote(g, x, m);
    lemma_run_append(spec_compile(f) + spec_compile(g), seq![i], stk, x, m);
    lemma_run_append(spec_compile(f), spec_compile(g), stk, x, m);
    lemma_run_one(i, stk.push(vf).push(vg), x, m);
    assert(stk.push(vf).push(vg).drop_last().drop_last().push(
        (binary_op(i, m)->Some_0)(vf, vg),
    ) =~= stk.push((binary_op(i, m)->Some_0)(vf, vg)));
}

/// The shared argument for the two exponentials, which push their base
/// first, compile their child, and apply the power instruction.
proof fn lemma_scaled_exp_case(a: u64, f: Node, stk: Seq<u64>, x: u64, m: Interp)
    requires
        run(spec_compile(f), stk.push(a), x, m) == Some(stk.push(a).push(denote(f, x, m))),
    ensures
        run(seq![Instr::PushConst(a)] + spec_compile(f) + seq![Instr::Pow], stk, x, m) == Some(
            stk.push((m.pow)(a, denote(f, x, m))),
        ),
{
    let vf = denote(f, x, m);
    lemma_run_append(seq![Instr::PushConst(a)] + spec_compile(f), seq![Instr::Pow], stk, x, m);
    lemma_run_append(seq![Instr::PushConst(a)], spec_compile(f), stk, x, m);
    lemma_run_one(Instr::PushConst(a), stk, x, m);
    lemma_run_one(Instr::Pow, stk.push(a).push(vf), x, m);
    assert(stk.push(a).push(vf).drop_last().drop_last().push((m.pow)(a, vf)) =~= stk.push(
        (m.pow)(a, vf),
    ));
}

/// Two instructions in sequence are two steps.
proof fn lemma_run_two(i: Instr, j: Instr, stk: Seq<u64>, x: u64, m: Interp)
    ensures
        run(seq![i, j], stk, x, m) == (match step(stk, i, x, m) {
            Some(stk2) => step(stk2, j, x, m),
            None => None::<Seq<u64>>,
        }),
{
    let p = seq![i, j];
    assert(p.subrange(1, p.len() as int) =~= seq![j]);
    match step(stk, i, x, m) {
        Some(stk2) => {
            lemma_run_one(j, stk2, x, m);
        },
        None => {},
    }
}

/// Compiles the tree to its postfix program.
pub fn compile(e: &Node) -> (prog: Vec<Instr>)
    ensures
        prog@ == spec_compile(*e),
{
    let mut prog: Vec<Instr> = Vec::new();
    compile_into(e, &mut prog);
    prog
}

/// Appends the postfix program of `e` to `out`.
fn compile_into(e: &Node, out: &mut Vec<Instr>)
    ensures
        final(out)@ == old(out)@ + spec_compile(*e),
    decreases *e,
{
    match e {
        Node::Abstract(_) => {
            out.push(Instr::PushConst(ZERO_BITS));
        },
        Node::Const(k) => {
            out.push(Instr::PushConst(k.c));
        },
        Node::Idem(_) => {
            out.push(Instr::PushInput);
        },
        Node::Sum(s) => {
            compile_into(&s.f, out);
            compile_into(&s.g, out);
            out.push(Instr::Add);
        },
        Node::Prod(p) => {
            compile_into(&p.f, out);
            compile_into(&p.g, out);
            out.push(Instr::Mul);
        },
        Node::Pow(p) => {
            compile_into(&p.f, out);
            out.push(Instr::PushConst(p.n));
            out.push(Instr::Pow);
        },
        Node::ExpA(e2) => {
            out.push(Instr::PushConst(e2.a));
            compile_into(&e2.f, out);
            out.push(Instr::Pow);
        },
        Node::ExpE(e2) => {
            out.push(Instr::PushConst(E_BITS));
            compile_into(&e2.f, out);
            out.push(Instr::Pow);
        },
        Node::LogA(l) => {
            compile_into(&l.f, out);
            out.push(Instr::PushConst(l.b));
            out.push(Instr::Log);
        },
        Node::LogE(l) => {
            compile_into(&l.f, out);
            out.push(Instr::Ln);
        },
        Node::Sin(t) => {
            compile_into(&t.f, out);
            out.push(Instr::Sin);
        },
        Node::Cos(t) => {
            compile_into(&t.f, out);
            out.push(Instr::Cos);
        },
        Node::Tan(t) => {
            compile_into(&t.f, out);
            out.push(Instr::Tan);
        },
        Node::Asin(t) => {
            compile_into(&t.f, out);
            out.push(Instr::Asin);
        },
        Node::Acos(t) => {
            compile_into(&t.f, out);
            out.push(Instr::Acos);
        },
        Node::Atan(t) => {
            compile_into(&t.f, out);
            out.push(Instr::Atan);
        },
        Node::Sqrt(r) => {
            compile_into(&r.f, out);
            out.push(Instr::Sqrt);
        },
        Node::Qbrt(r) => {
            compile_into(&r.f, out);
            out.push(Instr::Cbrt);
        },
        Node::Nthrt(r) => {
            compile_into(&r.f, out);
            out.push(Instr::PushConst(ONE_BITS));
            out.push(Instr::PushConst(r.n));
            out.push(Instr::Div);
            out.push(Instr::Pow);
        },
    }
    proof {
        assert(out@ =~= old(out)@ + spec_compile(*e));
    }
}

} // verus!
