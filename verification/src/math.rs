//! Vectors and colors.

use vstd::prelude::*;
use crate::arith::{follows, gives, total, Model, Op};
use crate::scalar::Scalar;

verus! {

/// A point or direction in the plane.
#[derive(Clone, Copy, PartialEq, Eq, Structural, Debug)]
pub struct Vec2 {
    pub x: Scalar,
    pub y: Scalar,
}

/// A point or direction in space.
#[derive(Clone, Copy, PartialEq, Eq, Structural, Debug)]
pub struct Vec3 {
    pub x: Scalar,
    pub y: Scalar,
    pub z: Scalar,
}

/// A color with its opacity; each part runs from zero to one.
#[derive(Clone, Copy, PartialEq, Eq, Structural, Debug)]
pub struct Color {
    pub r: Scalar,
    pub g: Scalar,
    pub b: Scalar,
    pub a: Scalar,
}

impl Vec2 {
    /// The sum of `a` and `b`, part by part, under a model of the
    /// arithmetic.
    pub open spec fn sum(model: Model, a: Vec2, b: Vec2) -> Vec2 {
        Vec2 { x: model(Op::Add(a.x, b.x)), y: model(Op::Add(a.y, b.y)) }
    }

    /// `a` less `b`, part by part, under a model of the arithmetic.
    pub open spec fn difference(model: Model, a: Vec2, b: Vec2) -> Vec2 {
        Vec2 { x: model(Op::Sub(a.x, b.x)), y: model(Op::Sub(a.y, b.y)) }
    }

    /// `a` with every part multiplied by `k`, under a model of the
    /// arithmetic.
    pub open spec fn scaled(model: Model, a: Vec2, k: Scalar) -> Vec2 {
        Vec2 { x: model(Op::Mul(a.x, k)), y: model(Op::Mul(a.y, k)) }
    }

    /// `out` is the sum of `a` and `b`, part by part, under the evaluator.
    pub open spec fn is_sum<E: Fn(Op) -> Scalar>(unit: &E, a: Vec2, b: Vec2, out: Vec2) -> bool {
        &&& gives(unit, Op::Add(a.x, b.x), out.x)
        &&& gives(unit, Op::Add(a.y, b.y), out.y)
    }

    /// `out` is `a` less `b`, part by part, under the evaluator.
    pub open spec fn is_difference<E: Fn(Op) -> Scalar>(
        unit: &E,
        a: Vec2,
        b: Vec2,
        out: Vec2,
    ) -> bool {
        &&& gives(unit, Op::Sub(a.x, b.x), out.x)
        &&& gives(unit, Op::Sub(a.y, b.y), out.y)
    }

    /// `out` is `a` with every part multiplied by `k` under the evaluator.
    pub open spec fn is_scaled<E: Fn(Op) -> Scalar>(unit: &E, a: Vec2, k: Scalar, out: Vec2) -> bool {
        &&& gives(unit, Op::Mul(a.x, k), out.x)
        &&& gives(unit, Op::Mul(a.y, k), out.y)
    }

    pub fn new(x: Scalar, y: Scalar) -> (v: Vec2)
        ensures
            v == (Vec2 { x, y }),
    {
        Vec2 { x, y }
    }

    /// The vector with `k` in every part.
    pub fn all(k: Scalar) -> (v: Vec2)
        ensures
            v == (Vec2 { x: k, y: k }),
    {
        Vec2 { x: k, y: k }
    }

    pub fn add<E: Fn(Op) -> Scalar>(self, other: Vec2, unit: &E) -> (out: Vec2)
        requires
            total(unit),
        ensures
            Vec2::is_sum(unit, self, other, out),
            forall|model: Model| #[trigger] follows(unit, model) ==> out == Vec2::sum(model, self, other),
    {
        let x = unit(Op::Add(self.x, other.x));
        let y = unit(Op::Add(self.y, other.y));
        Vec2 { x, y }
    }

    pub fn sub<E: Fn(Op) -> Scalar>(self, other: Vec2, unit: &E) -> (out: Vec2)
        requires
            total(unit),
        ensures
            Vec2::is_difference(unit, self, other, out),
            forall|model: Model| #[trigger]
                follows(unit, model) ==> out == Vec2::difference(model, self, other),
    {
        let x = unit(Op::Sub(self.x, other.x));
        let y = unit(Op::Sub(self.y, other.y));
        Vec2 { x, y }
    }

    pub fn scale<E: Fn(Op) -> Scalar>(self, k: Scalar, unit: &E) -> (out: Vec2)
        requires
            total(unit),
        ensures
            Vec2::is_scaled(unit, self, k, out),
            forall|model: Model| #[trigger] follows(unit, model) ==> out == Vec2::scaled(model, self, k),
    {
        let x = unit(Op::Mul(self.x, k));
        let y = unit(Op::Mul(self.y, k));
        Vec2 { x, y }
    }
}

impl Vec3 {
    /// The sum of `a` and `b`, part by part, under a model of the
    /// arithmetic.
    pub open spec fn sum(model: Model, a: Vec3, b: Vec3) -> Vec3 {
        Vec3 {
            x: model(Op::Add(a.x, b.x)),
            y: model(Op::Add(a.y, b.y)),
            z: model(Op::Add(a.z, b.z)),
        }
    }

    /// `a` less `b`, part by part, under a model of the arithmetic.
    pub open spec fn difference(model: Model, a: Vec3, b: Vec3) -> Vec3 {
        Vec3 {
            x: model(Op::Sub(a.x, b.x)),
            y: model(Op::Sub(a.y, b.y)),
            z: model(Op::Sub(a.z, b.z)),
        }
    }

    /// `a` with every part multiplied by `k`, under a model of the
    /// arithmetic.
    pub open spec fn scaled(model: Model, a: Vec3, k: Scalar) -> Vec3 {
        Vec3 { x: model(Op::Mul(a.x, k)), y: model(Op::Mul(a.y, k)), z: model(Op::Mul(a.z, k)) }
    }

    /// `out` is the sum of `a` and `b`, part by part, under the evaluator.
    pub open spec fn is_sum<E: Fn(Op) -> Scalar>(unit: &E, a: Vec3, b: Vec3, out: Vec3) -> bool {
        &&& gives(unit, Op::Add(a.x, b.x), out.x)
        &&& gives(unit, Op::Add(a.y, b.y), out.y)
        &&& gives(unit, Op::Add(a.z, b.z), out.z)
    }

    /// `out` is `a` less `b`, part by part, under the evaluator.
    pub open spec fn is_difference<E: Fn(Op) -> Scalar>(
        unit: &E,
        a: Vec3,
        b: Vec3,
        out: Vec3,
    ) -> bool {
        &&& gives(unit, Op::Sub(a.x, b.x), out.x)
        &&& gives(unit, Op::Sub(a.y, b.y), out.y)
        &&& gives(unit, Op::Sub(a.z, b.z), out.z)
    }

    /// `out` is `a` with every part multiplied by `k` under the evaluator.
    pub open spec fn is_scaled<E: Fn(Op) -> Scalar>(unit: &E, a: Vec3, k: Scalar, out: Vec3) -> bool {
        &&& gives(unit, Op::Mul(a.x, k), out.x)
        &&& gives(unit, Op::Mul(a.y, k), out.y)
        &&& gives(unit, Op::Mul(a.z, k), out.z)
    }

    pub fn new(x: Scalar, y: Scalar, z: Scalar) -> (v: Vec3)
        ensures
            v == (Vec3 { x, y, z }),
    {
        Vec3 { x, y, z }
    }

    /// The vector with `k` in every part.
    pub fn all(k: Scalar) -> (v: Vec3)
        ensures
            v == (Vec3 { x: k, y: k, z: k }),
    {
        Vec3 { x: k, y: k, z: k }
    }

    pub fn add<E: Fn(Op) -> Scalar>(self, other: Vec3, unit: &E) -> (out: Vec3)
        requires
            total(unit),
        ensures
            Vec3::is_sum(unit, self, other, out),
            forall|model: Model| #[trigger] follows(unit, model) ==> out == Vec3::sum(model, self, other),
    {
        let x = unit(Op::Add(self.x, other.x));
        let y = unit(Op::Add(self.y, other.y));
        let z = unit(Op::Add(self.z, other.z));
        Vec3 { x, y, z }
    }

    pub fn sub<E: Fn(Op) -> Scalar>(self, other: Vec3, unit: &E) -> (out: Vec3)
        requires
            total(unit),
        ensures
            Vec3::is_difference(unit, self, other, out),
            forall|model: Model| #[trigger]
                follows(unit, model) ==> out == Vec3::difference(model, self, other),
    {
        let x = unit(Op::Sub(self.x, other.x));
        let y = unit(Op::Sub(self.y, other.y));
        let z = unit(Op::Sub(self.z, other.z));
        Vec3 { x, y, z }
    }

    pub fn scale<E: Fn(Op) -> Scalar>(self, k: Scalar, unit: &E) -> (out: Vec3)
        requires
            total(unit),
        ensures
            Vec3::is_scaled(unit, self, k, out),
            forall|model: Model| #[trigger] follows(unit, model) ==> out == Vec3::scaled(model, self, k),
    {
        let x = unit(Op::Mul(self.x, k));
        let y = unit(Op::Mul(self.y, k));
        let z = unit(Op::Mul(self.z, k));
        Vec3 { x, y, z }
    }
}

impl Color {
    /// Opaque white.
    pub open spec fn white() -> Color {
        let one = Scalar::one();
        Color { r: one, g: one, b: one, a: one }
    }

    /// Black without opacity.
    pub open spec fn clear() -> Color {
        let zero = Scalar::zero();
        Color { r: zero, g: zero, b: zero, a: zero }
    }

    pub fn new(r: Scalar, g: Scalar, b: Scalar, a: Scalar) -> (c: Color)
        ensures
            c == (Color { r, g, b, a }),
    {
        Color { r, g, b, a }
    }

    /// The color with `k` in every part.
    pub fn all(k: Scalar) -> (c: Color)
        ensures
            c == (Color { r: k, g: k, b: k, a: k }),
    {
        Color { r: k, g: k, b: k, a: k }
    }
}

impl Default for Vec2 {
    fn default() -> (v: Vec2)
        ensures
            v.x.bits == 0 && v.y.bits == 0,
    {
        Vec2::all(Scalar::zero())
    }
}

impl Default for Vec3 {
    fn default() -> (v: Vec3)
        ensures
            v.x.bits == 0 && v.y.bits == 0 && v.z.bits == 0,
    {
        Vec3::all(Scalar::zero())
    }
}

impl Default for Color {
    fn default() -> (c: Color)
        ensures
            c == Color::white(),
    {
        Color::all(Scalar::one())
    }
}

} // verus!
