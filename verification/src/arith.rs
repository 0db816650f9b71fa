//! The rounding operations that the library asks of its caller.
//!
//! A function that needs a sum, a product or a power takes an evaluator: any
//! `Fn(Op) -> Scalar`. Contracts speak of the evaluator's answers through
//! [`gives`], so they hold of whatever arithmetic the caller supplies. Where
//! the evaluator is a function of the operation alone, that function is its
//! [`Model`], and each contract also says what comes out in terms of it.

use vstd::prelude::*;
use crate::scalar::Scalar;

verus! {

/// One rounding operation on single-precision numbers.
#[derive(Clone, Copy, PartialEq, Eq, Structural, Debug)]
pub enum Op {
    /// The sum of the two numbers.
    Add(Scalar, Scalar),
    /// The first number less the second.
    Sub(Scalar, Scalar),
    /// The product of the two numbers.
    Mul(Scalar, Scalar),
    /// The first number raised to the power of the second.
    Pow(Scalar, Scalar),
    /// The number nearest to a count.
    Count(usize),
}

/// The evaluator accepts every operation.
pub open spec fn total<E: Fn(Op) -> Scalar>(unit: &E) -> bool {
    forall|op: Op| #[trigger] call_requires(unit, (op,))
}

/// `r` is an answer of the evaluator to `op`.
pub open spec fn gives<E: Fn(Op) -> Scalar>(unit: &E, op: Op, r: Scalar) -> bool {
    call_ensures(unit, (op,), r)
}

/// What an evaluator answers to each operation, where its answers depend on
/// nothing else.
pub type Model = spec_fn(Op) -> Scalar;

/// Every answer of the evaluator is the model's.
pub open spec fn follows<E: Fn(Op) -> Scalar>(unit: &E, model: Model) -> bool {
    forall|op: Op, r: Scalar| #[trigger] gives(unit, op, r) ==> r == model(op)
}

} // verus!
