//! One stereo sample pair.

use vstd::prelude::*;
use crate::arith::{follows, gives, total, Model, Op};
use crate::scalar::Scalar;

verus! {

/// The amplitudes of the two channels at one point in time. Nothing clamps
/// them: a value may leave the unit range.
#[derive(Clone, Copy, PartialEq, Eq, Structural, Debug)]
pub struct Frame {
    pub left: Scalar,
    pub right: Scalar,
}

impl Frame {
    /// Both channels at positive zero.
    pub open spec fn silence() -> Frame {
        Frame { left: Scalar::zero(), right: Scalar::zero() }
    }

    /// The channel-wise sum of `a` and `b` under a model of the arithmetic.
    pub open spec fn sum(model: Model, a: Frame, b: Frame) -> Frame {
        Frame { left: model(Op::Add(a.left, b.left)), right: model(Op::Add(a.right, b.right)) }
    }

    /// `a` with both channels multiplied by `k` under a model of the
    /// arithmetic.
    pub open spec fn scaled(model: Model, a: Frame, k: Scalar) -> Frame {
        Frame { left: model(Op::Mul(a.left, k)), right: model(Op::Mul(a.right, k)) }
    }

    /// `out` is the channel-wise sum of `a` and `b` under the evaluator.
    pub open spec fn is_sum<E: Fn(Op) -> Scalar>(unit: &E, a: Frame, b: Frame, out: Frame) -> bool {
        &&& gives(unit, Op::Add(a.left, b.left), out.left)
        &&& gives(unit, Op::Add(a.right, b.right), out.right)
    }

    /// `out` is `a` with both channels multiplied by `k` under the evaluator.
    pub open spec fn is_scaled<E: Fn(Op) -> Scalar>(
        unit: &E,
        a: Frame,
        k: Scalar,
        out: Frame,
    ) -> bool {
        &&& gives(unit, Op::Mul(a.left, k), out.left)
        &&& gives(unit, Op::Mul(a.right, k), out.right)
    }

    pub fn new(left: Scalar, right: Scalar) -> (f: Frame)
        ensures
            f.left == left,
            f.right == right,
    {
        Frame { left, right }
    }

    /// The channel-wise sum, left channel first.
    pub fn add<E: Fn(Op) -> Scalar>(self, other: Frame, unit: &E) -> (out: Frame)
        requires
            total(unit),
        ensures
            Frame::is_sum(unit, self, other, out),
            forall|model: Model| #[trigger] follows(unit, model) ==> out == Frame::sum(model, self, other),
    {
        let left = unit(Op::Add(self.left, other.left));
        let right = unit(Op::Add(self.right, other.right));
        Frame { left, right }
    }

    /// Both channels multiplied by `k`, left channel first.
    pub fn scale<E: Fn(Op) -> Scalar>(self, k: Scalar, unit: &E) -> (out: Frame)
        requires
            total(unit),
        ensures
            Frame::is_scaled(unit, self, k, out),
            forall|model: Model| #[trigger] follows(unit, model) ==> out == Frame::scaled(model, self, k),
    {
        let left = unit(Op::Mul(self.left, k));
        let right = unit(Op::Mul(self.right, k));
        Frame { left, right }
    }
}

impl Default for Frame {
    fn default() -> (f: Frame)
        ensures
            f == Frame::silence(),
    {
        Frame { left: Scalar::zero(), right: Scalar::zero() }
    }
}

} // verus!
