//! An algebra of real-valued, single-variable functions.
//!
//! Expressions are finite trees of nodes: leaves (a constant, the identity)
//! and combinators that own one or two child nodes (sum, product, power,
//! exponentials, logarithms, the trigonometric family, and roots).
//!
//! Real numbers are carried as the bit patterns of IEEE-754 binary64 values
//! (`bits`). The meaning of a tree is given by a denotational semantics that
//! is abstract in the numeric primitives (`semantics`), and a tree can be
//! compiled to a postfix program (`program`) whose execution under any
//! reading of those primitives is proved to produce exactly the tree's
//! denotation. A host that supplies the usual double-precision operations
//! for each instruction therefore evaluates the tree itself.

pub mod bits;
pub mod func;
pub mod program;
pub mod semantics;

