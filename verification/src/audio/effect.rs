//! Chainable audio effects.

use vstd::prelude::*;
use crate::arith::{follows, gives, total, Model, Op};
use crate::audio::frame::Frame;
use crate::scalar::Scalar;

verus! {

/// A stage of the signal path: it turns each incoming frame into an outgoing
/// one and may hold frames back that are still to sound once the source ends.
pub trait Effect: Sized {
    /// The outgoing frame for `f`.
    fn process<E: Fn(Op) -> Scalar>(&mut self, f: Frame, unit: &E) -> (out: Frame)
        requires
            total(unit),
    ;

    /// The next frame of the tail, or `None` once nothing is left to sound.
    fn leftover<E: Fn(Op) -> Scalar>(&mut self, unit: &E) -> (out: Option<Frame>)
        requires
            total(unit),
        default_ensures
            out is None,
            *final(self) == *old(self),
    {
        None
    }
}

/// A placeholder stage that passes every frame through.
#[derive(Clone, Copy, Debug)]
pub struct Reverb {}

impl Reverb {
    /// The argument is accepted and not used: a reverb holds nothing, so
    /// there is only one.
    #[allow(unused_variables)]
    pub fn new(d: Scalar) -> (r: Reverb) {
        Reverb {  }
    }
}

impl Default for Reverb {
    fn default() -> (r: Reverb) {
        Reverb::new(Scalar::zero())
    }
}

impl Effect for Reverb {
    fn process<E: Fn(Op) -> Scalar>(&mut self, f: Frame, unit: &E) -> (out: Frame)
        ensures
            out == f,
            *final(self) == *old(self),
    {
        f
    }
}

/// Independent gains for the two channels, never below zero.
#[derive(Clone, Copy, Debug)]
pub struct Volume {
    left: Scalar,
    right: Scalar,
}

/// The gain that a requested value stands for: the value itself, or positive
/// zero where it is below zero or not a number.
pub open spec fn floored(v: Scalar) -> Scalar {
    v.larger(Scalar::zero())
}

impl Volume {
    #[verifier::type_invariant]
    spec fn gains_are_not_negative(self) -> bool {
        &&& !self.left.is_nan() && self.left.rank() >= 0
        &&& !self.right.is_nan() && self.right.rank() >= 0
    }

    /// The gain of the left channel.
    pub closed spec fn left_gain(self) -> Scalar {
        self.left
    }

    /// The gain of the right channel.
    pub closed spec fn right_gain(self) -> Scalar {
        self.right
    }

    /// `f` with each channel multiplied by its gain, under a model of the
    /// arithmetic.
    pub open spec fn amplified(self, model: Model, f: Frame) -> Frame {
        Frame {
            left: model(Op::Mul(f.left, self.left_gain())),
            right: model(Op::Mul(f.right, self.right_gain())),
        }
    }

    /// `out` is `f` with each channel multiplied by its gain.
    pub open spec fn amplifies<E: Fn(Op) -> Scalar>(self, unit: &E, f: Frame, out: Frame) -> bool {
        &&& gives(unit, Op::Mul(f.left, self.left_gain()), out.left)
        &&& gives(unit, Op::Mul(f.right, self.right_gain()), out.right)
    }

    /// The same gain on both channels.
    pub fn new(v: Scalar) -> (vol: Volume)
        ensures
            vol.left_gain() == floored(v),
            vol.right_gain() == floored(v),
            v.below(Scalar::zero()) ==> vol.left_gain().bits == 0 && vol.right_gain().bits == 0,
    {
        Volume::panned(v, v)
    }

    /// One gain for each channel.
    pub fn panned(l: Scalar, r: Scalar) -> (vol: Volume)
        ensures
            vol.left_gain() == floored(l),
            vol.right_gain() == floored(r),
            l.below(Scalar::zero()) ==> vol.left_gain().bits == 0,
            r.below(Scalar::zero()) ==> vol.right_gain().bits == 0,
    {
        Volume { left: l.max(Scalar::zero()), right: r.max(Scalar::zero()) }
    }

    pub fn left(&self) -> (g: Scalar)
        ensures
            g == self.left_gain(),
            !g.is_nan(),
            g.rank() >= 0,
    {
        proof {
            use_type_invariant(self);
        }
        self.left
    }

    pub fn right(&self) -> (g: Scalar)
        ensures
            g == self.right_gain(),
            !g.is_nan(),
            g.rank() >= 0,
    {
        proof {
            use_type_invariant(self);
        }
        self.right
    }
}

impl Default for Volume {
    /// Unity gain on both channels.
    fn default() -> (vol: Volume)
        ensures
            vol.left_gain().bits == crate::scalar::ONE,
            vol.right_gain().bits == crate::scalar::ONE,
    {
        Volume::new(Scalar::one())
    }
}

impl Effect for Volume {
    fn process<E: Fn(Op) -> Scalar>(&mut self, f: Frame, unit: &E) -> (out: Frame)
        ensures
            old(self).amplifies(unit, f, out),
            forall|model: Model| #[trigger]
                follows(unit, model) ==> out == old(self).amplified(model, f),
            *final(self) == *old(self),
    {
        let left = unit(Op::Mul(f.left, self.left));
        let right = unit(Op::Mul(f.right, self.right));
        assert(gives(unit, Op::Mul(f.left, self.left_gain()), left));
        assert(gives(unit, Op::Mul(f.right, self.right_gain()), right));
        Frame::new(left, right)
    }
}

/// A power-law soft clip; the amount lies between zero and one.
#[derive(Clone, Copy, Debug)]
pub struct Distortion {
    crunch: Scalar,
}

/// The amount that a requested value stands for: the value clamped to the
/// range from zero to one, zero where it is not a number.
pub open spec fn unit_clamped(c: Scalar) -> Scalar {
    c.larger(Scalar::zero()).smaller(Scalar::one())
}

/// A clamped amount is a number from zero to one; a value within that range
/// is its own amount, and what lies beyond an end counts as that end.
pub proof fn lemma_unit_clamped(c: Scalar)
    ensures
        !unit_clamped(c).is_nan(),
        0 <= unit_clamped(c).rank() <= crate::scalar::ONE,
        !c.is_nan() && 0 <= c.rank() <= crate::scalar::ONE ==> unit_clamped(c) == c,
        c.is_nan() || c.rank() < 0 ==> unit_clamped(c) == Scalar::zero(),
        !c.is_nan() && c.rank() > crate::scalar::ONE ==> unit_clamped(c) == Scalar::one(),
{
}

/// The clipped power `p` under the sign of the incoming value `v`: `p` is
/// capped at one, then negated where `v` is negative.
pub open spec fn clipped(p: Scalar, v: Scalar) -> Scalar {
    let capped = p.smaller(Scalar::one());
    if v.is_negative() {
        capped.negated()
    } else {
        capped
    }
}

/// One channel `v` after the clip with exponent `c`, under a model of the
/// arithmetic: the magnitude of `v` raised to `c`, then clipped. Silence
/// stays silence, whatever the exponent, and a value that is not a number
/// stays as it is.
pub open spec fn bent(model: Model, c: Scalar, v: Scalar) -> Scalar {
    if v.is_nan() || v.is_zero() {
        v
    } else {
        clipped(model(Op::Pow(v.absolute(), c)), v)
    }
}

/// `out` is one channel `v` after the clip with exponent `c`: the magnitude of
/// `v` raised to `c` by the evaluator, then clipped. Silence stays silence,
/// whatever the exponent, and a value that is not a number stays as it is.
pub open spec fn bends<E: Fn(Op) -> Scalar>(unit: &E, c: Scalar, v: Scalar, out: Scalar) -> bool {
    if v.is_nan() || v.is_zero() {
        out == v
    } else {
        exists|p: Scalar| #[trigger] gives(unit, Op::Pow(v.absolute(), c), p) && out == clipped(p, v)
    }
}

impl Distortion {
    #[verifier::type_invariant]
    spec fn crunch_in_unit_range(self) -> bool {
        &&& !self.crunch.is_nan()
        &&& 0 <= self.crunch.rank() <= crate::scalar::ONE
    }

    /// The amount of distortion.
    pub closed spec fn amount(self) -> Scalar {
        self.crunch
    }

    /// `f` after the clip, under a model of the arithmetic: the exponent is
    /// one less the amount, and both channels are bent with it.
    pub open spec fn shaped(self, model: Model, f: Frame) -> Frame {
        let c = model(Op::Sub(Scalar::one(), self.amount()));
        Frame { left: bent(model, c, f.left), right: bent(model, c, f.right) }
    }

    /// `out` is `f` after the clip: the exponent is one less the amount, and
    /// both channels are bent with it.
    pub open spec fn shapes<E: Fn(Op) -> Scalar>(self, unit: &E, f: Frame, out: Frame) -> bool {
        exists|c: Scalar|
            {
                &&& #[trigger] gives(
                    unit,
                    Op::Sub(Scalar::one(), self.amount()),
                    c,
                )
                &&& bends(unit, c, f.left, out.left)
                &&& bends(unit, c, f.right, out.right)
            }
    }

    pub fn new(c: Scalar) -> (d: Distortion)
        ensures
            d.amount() == unit_clamped(c),
    {
        Distortion { crunch: c.max(Scalar::zero()).min(Scalar::one()) }
    }

    pub fn crunch(&self) -> (c: Scalar)
        ensures
            c == self.amount(),
            !c.is_nan(),
            0 <= c.rank() <= crate::scalar::ONE,
    {
        proof {
            use_type_invariant(self);
        }
        self.crunch
    }

    /// One channel through the clip with exponent `c`.
    fn bend<E: Fn(Op) -> Scalar>(v: Scalar, c: Scalar, unit: &E) -> (out: Scalar)
        requires
            total(unit),
        ensures
            bends(unit, c, v, out),
    {
        if v.nan() || v.zeroed() {
            return v;
        }
        let p = unit(Op::Pow(v.abs(), c));
        assert(gives(unit, Op::Pow(v.absolute(), c), p));
        let capped = p.min(Scalar::one());
        if v.sign_bit() {
            capped.neg()
        } else {
            capped
        }
    }
}

/// The arithmetic is exact where the exponent of a clip without distortion
/// is formed and used: one less zero is one, and a number to the power of
/// one is itself.
pub open spec fn exact_at_one(model: Model) -> bool {
    &&& model(Op::Sub(Scalar::one(), Scalar::zero())) == Scalar::one()
    &&& forall|m: Scalar| #[trigger]
        model(Op::Pow(m, Scalar::one())) == m
}

/// The arithmetic is exact where the exponent of a full clip is formed and
/// used: one less one is zero, and a number to the power of zero is one.
pub open spec fn exact_at_zero(model: Model) -> bool {
    &&& model(Op::Sub(Scalar::one(), Scalar::one())) == Scalar::zero()
    &&& forall|m: Scalar| #[trigger]
        model(Op::Pow(m, Scalar::zero())) == Scalar::one()
}

/// Whether both channels are numbers of a magnitude of at most one.
pub open spec fn in_unit_range(f: Frame) -> bool {
    &&& !f.left.is_nan() && f.left.magnitude() <= crate::scalar::ONE
    &&& !f.right.is_nan() && f.right.magnitude() <= crate::scalar::ONE
}

/// Without distortion a frame within the unit range passes unchanged.
pub proof fn lemma_no_crunch_is_transparent(d: Distortion, model: Model, f: Frame)
    requires
        d.amount().bits == 0,
        exact_at_one(model),
        in_unit_range(f),
    ensures
        d.shaped(model, f) == f,
{
}

/// Full scale under the sign of `v`: minus one where `v` is negative, else
/// one.
pub open spec fn saturated(v: Scalar) -> Scalar {
    if v.is_negative() {
        Scalar::minus_one()
    } else {
        Scalar::one()
    }
}

/// With full distortion every channel that is a number other than zero
/// leaves as one or minus one, by its sign; a channel at zero stays as it is.
pub proof fn lemma_full_crunch_saturates(d: Distortion, model: Model, f: Frame)
    requires
        d.amount().bits == crate::scalar::ONE,
        exact_at_zero(model),
    ensures
        !f.left.is_nan() && !f.left.is_zero() ==> d.shaped(model, f).left == saturated(f.left),
        !f.right.is_nan() && !f.right.is_zero() ==> d.shaped(model, f).right == saturated(
            f.right,
        ),
        f.left.is_zero() ==> d.shaped(model, f).left == f.left,
        f.right.is_zero() ==> d.shaped(model, f).right == f.right,
{
}

impl Default for Distortion {
    /// No distortion.
    fn default() -> (d: Distortion)
        ensures
            d.amount().bits == 0,
    {
        Distortion::new(Scalar::zero())
    }
}

impl Effect for Distortion {
    fn process<E: Fn(Op) -> Scalar>(&mut self, f: Frame, unit: &E) -> (out: Frame)
        ensures
            old(self).shapes(unit, f, out),
            forall|model: Model| #[trigger] follows(unit, model) ==> out == old(self).shaped(model, f),
            *final(self) == *old(self),
    {
        let c = unit(Op::Sub(Scalar::one(), self.crunch));
        assert(gives(unit, Op::Sub(Scalar::one(), self.amount()), c));
        let left = Distortion::bend(f.left, c, unit);
        let right = Distortion::bend(f.right, c, unit);
        Frame::new(left, right)
    }
}

} // verus!
