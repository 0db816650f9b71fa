//! Rays, lines, boxes and the other plain shapes of geometry.

use vstd::prelude::*;
use crate::arith::{follows, gives, total, Model, Op};
use crate::math::{Vec2, Vec3};
use crate::scalar::Scalar;

verus! {

/// A ray in space.
#[derive(Clone, Copy, PartialEq, Eq, Structural, Debug)]
pub struct Ray3 {
    pub origin: Vec3,
    pub dir: Vec3,
}

impl Ray3 {
    pub fn new(origin: Vec3, dir: Vec3) -> (r: Ray3)
        ensures
            r == (Ray3 { origin, dir }),
    {
        Ray3 { origin, dir }
    }

    /// The point at distance `d` along the ray: the direction scaled by `d`,
    /// added to the origin.
    pub fn at<E: Fn(Op) -> Scalar>(&self, d: Scalar, unit: &E) -> (p: Vec3)
        requires
            total(unit),
        ensures
            exists|step: Vec3| #[trigger]
                Vec3::is_scaled(unit, self.dir, d, step) && Vec3::is_sum(
                    unit,
                    self.origin,
                    step,
                    p,
                ),
            forall|model: Model| #[trigger]
                follows(unit, model) ==> p == Vec3::sum(
                    model,
                    self.origin,
                    Vec3::scaled(model, self.dir, d),
                ),
    {
        let step = self.dir.scale(d, unit);
        self.origin.add(step, unit)
    }
}

/// A ray in the plane.
#[derive(Clone, Copy, PartialEq, Eq, Structural, Debug)]
pub struct Ray2 {
    pub origin: Vec2,
    pub dir: Vec2,
}

impl Ray2 {
    pub fn new(origin: Vec2, dir: Vec2) -> (r: Ray2)
        ensures
            r == (Ray2 { origin, dir }),
    {
        Ray2 { origin, dir }
    }

    /// The point at distance `d` along the ray: the direction scaled by `d`,
    /// added to the origin.
    pub fn at<E: Fn(Op) -> Scalar>(&self, d: Scalar, unit: &E) -> (p: Vec2)
        requires
            total(unit),
        ensures
            exists|step: Vec2| #[trigger]
                Vec2::is_scaled(unit, self.dir, d, step) && Vec2::is_sum(
                    unit,
                    self.origin,
                    step,
                    p,
                ),
            forall|model: Model| #[trigger]
                follows(unit, model) ==> p == Vec2::sum(
                    model,
                    self.origin,
                    Vec2::scaled(model, self.dir, d),
                ),
    {
        let step = self.dir.scale(d, unit);
        self.origin.add(step, unit)
    }
}

/// A line segment in the plane.
#[derive(Clone, Copy, PartialEq, Eq, Structural, Debug)]
pub struct Line2 {
    pub p1: Vec2,
    pub p2: Vec2,
}

impl Line2 {
    pub fn new(p1: Vec2, p2: Vec2) -> (l: Line2)
        ensures
            l == (Line2 { p1, p2 }),
    {
        Line2 { p1, p2 }
    }
}

/// A line segment in space.
#[derive(Clone, Copy, PartialEq, Eq, Structural, Debug)]
pub struct Line3 {
    pub p1: Vec3,
    pub p2: Vec3,
}

impl Line3 {
    pub fn new(p1: Vec3, p2: Vec3) -> (l: Line3)
        ensures
            l == (Line3 { p1, p2 }),
    {
        Line3 { p1, p2 }
    }
}

/// A rectangle between two corners.
#[derive(Clone, Copy, PartialEq, Eq, Structural, Debug)]
pub struct Rect {
    pub p1: Vec2,
    pub p2: Vec2,
}

/// The distance between `a` and `b` on one axis, under a model of the
/// arithmetic: the magnitude of `b` less `a`.
pub open spec fn span(model: Model, a: Scalar, b: Scalar) -> Scalar {
    model(Op::Sub(b, a)).absolute()
}

/// `out` is the distance between `a` and `b` on one axis: the magnitude of
/// `b` less `a` under the evaluator.
pub open spec fn is_span<E: Fn(Op) -> Scalar>(unit: &E, a: Scalar, b: Scalar, out: Scalar) -> bool {
    exists|d: Scalar| #[trigger] gives(unit, Op::Sub(b, a), d) && out == d.absolute()
}

impl Rect {
    pub fn new(p1: Vec2, p2: Vec2) -> (r: Rect)
        ensures
            r == (Rect { p1, p2 }),
    {
        Rect { p1, p2 }
    }

    /// The point halfway between the corners: their sum, scaled by a half.
    pub fn center<E: Fn(Op) -> Scalar>(&self, unit: &E) -> (p: Vec2)
        requires
            total(unit),
        ensures
            exists|sum: Vec2| #[trigger]
                Vec2::is_sum(unit, self.p1, self.p2, sum) && Vec2::is_scaled(
                    unit,
                    sum,
                    Scalar::half(),
                    p,
                ),
            forall|model: Model| #[trigger]
                follows(unit, model) ==> p == Vec2::scaled(
                    model,
                    Vec2::sum(model, self.p1, self.p2),
                    Scalar::half(),
                ),
    {
        let sum = self.p1.add(self.p2, unit);
        sum.scale(Scalar::half(), unit)
    }

    pub fn width<E: Fn(Op) -> Scalar>(&self, unit: &E) -> (w: Scalar)
        requires
            total(unit),
        ensures
            is_span(unit, self.p1.x, self.p2.x, w),
            forall|model: Model| #[trigger]
                follows(unit, model) ==> w == span(model, self.p1.x, self.p2.x),
    {
        let d = unit(Op::Sub(self.p2.x, self.p1.x));
        assert(gives(unit, Op::Sub(self.p2.x, self.p1.x), d));
        d.abs()
    }

    pub fn height<E: Fn(Op) -> Scalar>(&self, unit: &E) -> (h: Scalar)
        requires
            total(unit),
        ensures
            is_span(unit, self.p1.y, self.p2.y, h),
            forall|model: Model| #[trigger]
                follows(unit, model) ==> h == span(model, self.p1.y, self.p2.y),
    {
        let d = unit(Op::Sub(self.p2.y, self.p1.y));
        assert(gives(unit, Op::Sub(self.p2.y, self.p1.y), d));
        d.abs()
    }
}

/// A box in space with its sides along the axes.
#[derive(Clone, Copy, PartialEq, Eq, Structural, Debug)]
pub struct BBox {
    pub min: Vec3,
    pub max: Vec3,
}

/// A coordinate carried round a range: below `lo` it comes back at `hi`,
/// above `hi` at `lo`, and otherwise it stays. A coordinate that is not a
/// number stays too.
pub open spec fn wrapped(v: Scalar, lo: Scalar, hi: Scalar) -> Scalar {
    if v.below(lo) {
        hi
    } else if hi.below(v) {
        lo
    } else {
        v
    }
}

/// The box widened, where needed, to hold the point.
pub open spec fn widened(b: BBox, p: Vec3) -> BBox {
    BBox {
        min: Vec3 { x: b.min.x.smaller(p.x), y: b.min.y.smaller(p.y), z: b.min.z.smaller(p.z) },
        max: Vec3 { x: b.max.x.larger(p.x), y: b.max.y.larger(p.y), z: b.max.z.larger(p.z) },
    }
}

/// The smallest box round the points: the first point alone, widened by each
/// further point in turn. The points are at least one.
pub open spec fn hull(points: Seq<Vec3>) -> BBox
    decreases points.len(),
{
    if points.len() <= 1 {
        BBox { min: points[0], max: points[0] }
    } else {
        widened(hull(points.drop_last()), points.last())
    }
}

/// Whether every part of the point is a number.
pub open spec fn is_numeric(p: Vec3) -> bool {
    !p.x.is_nan() && !p.y.is_nan() && !p.z.is_nan()
}

/// Whether the point lies within the box, its sides included.
pub open spec fn holds(b: BBox, p: Vec3) -> bool {
    &&& b.min.x.rank() <= p.x.rank() <= b.max.x.rank()
    &&& b.min.y.rank() <= p.y.rank() <= b.max.y.rank()
    &&& b.min.z.rank() <= p.z.rank() <= b.max.z.rank()
}

/// The box round points that are all numbers is made of numbers and holds
/// each of the points.
pub proof fn lemma_hull_holds_points(points: Seq<Vec3>, k: int)
    requires
        0 <= k < points.len(),
        forall|i: int| 0 <= i < points.len() ==> is_numeric(#[trigger] points[i]),
    ensures
        is_numeric(hull(points).min),
        is_numeric(hull(points).max),
        holds(hull(points), points[k]),
    decreases points.len(),
{
    if points.len() > 1 {
        let rest = points.drop_last();
        assert forall|i: int| 0 <= i < rest.len() implies is_numeric(#[trigger] rest[i]) by {
            assert(rest[i] == points[i]);
        }
        assert(is_numeric(points.last()));
        if k < rest.len() {
            lemma_hull_holds_points(rest, k);
            assert(rest[k] == points[k]);
        } else {
            lemma_hull_holds_points(rest, 0);
        }
    }
}

/// The transformation accepts every point.
pub open spec fn moves_all<T: Fn(Vec3) -> Vec3>(t: &T) -> bool {
    forall|p: Vec3| #[trigger] call_requires(t, (p,))
}

fn wrap_axis(v: Scalar, lo: Scalar, hi: Scalar) -> (r: Scalar)
    ensures
        r == wrapped(v, lo, hi),
{
    let mut r = v;
    if r.lt(lo) {
        r = hi;
    }
    if r.gt(hi) {
        r = lo;
    }
    r
}

impl BBox {
    pub fn new(min: Vec3, max: Vec3) -> (b: BBox)
        ensures
            b == (BBox { min, max }),
    {
        BBox { min, max }
    }

    /// The point carried round the box on each axis.
    pub fn wrap(&self, pt: Vec3) -> (r: Vec3)
        ensures
            r.x == wrapped(pt.x, self.min.x, self.max.x),
            r.y == wrapped(pt.y, self.min.y, self.max.y),
            r.z == wrapped(pt.z, self.min.z, self.max.z),
    {
        Vec3 {
            x: wrap_axis(pt.x, self.min.x, self.max.x),
            y: wrap_axis(pt.y, self.min.y, self.max.y),
            z: wrap_axis(pt.z, self.min.z, self.max.z),
        }
    }

    /// The smallest box that holds both boxes.
    pub fn max(b1: BBox, b2: BBox) -> (b: BBox)
        ensures
            b.min.x == b1.min.x.smaller(b2.min.x),
            b.min.y == b1.min.y.smaller(b2.min.y),
            b.min.z == b1.min.z.smaller(b2.min.z),
            b.max.x == b1.max.x.larger(b2.max.x),
            b.max.y == b1.max.y.larger(b2.max.y),
            b.max.z == b1.max.z.larger(b2.max.z),
    {
        let minx = b1.min.x.min(b2.min.x);
        let miny = b1.min.y.min(b2.min.y);
        let minz = b1.min.z.min(b2.min.z);
        let maxx = b1.max.x.max(b2.max.x);
        let maxy = b1.max.y.max(b2.max.y);
        let maxz = b1.max.z.max(b2.max.z);
        BBox { min: Vec3::new(minx, miny, minz), max: Vec3::new(maxx, maxy, maxz) }
    }

    /// The box that both boxes share.
    pub fn min(b1: BBox, b2: BBox) -> (b: BBox)
        ensures
            b.min.x == b1.min.x.larger(b2.min.x),
            b.min.y == b1.min.y.larger(b2.min.y),
            b.min.z == b1.min.z.larger(b2.min.z),
            b.max.x == b1.max.x.smaller(b2.max.x),
            b.max.y == b1.max.y.smaller(b2.max.y),
            b.max.z == b1.max.z.smaller(b2.max.z),
    {
        let minx = b1.min.x.max(b2.min.x);
        let miny = b1.min.y.max(b2.min.y);
        let minz = b1.min.z.max(b2.min.z);
        let maxx = b1.max.x.min(b2.max.x);
        let maxy = b1.max.y.min(b2.max.y);
        let maxz = b1.max.z.min(b2.max.z);
        BBox { min: Vec3::new(minx, miny, minz), max: Vec3::new(maxx, maxy, maxz) }
    }

    /// The eight corners: the four of the near side, then the four of the
    /// far side, each side starting at the least `x` and the greatest `y`
    /// and going round by way of the greatest `x`.
    pub open spec fn corners(self) -> Seq<Vec3> {
        let a = self.min;
        let b = self.max;
        seq![
            Vec3 { x: a.x, y: b.y, z: a.z },
            Vec3 { x: b.x, y: b.y, z: a.z },
            Vec3 { x: b.x, y: a.y, z: a.z },
            Vec3 { x: a.x, y: a.y, z: a.z },
            Vec3 { x: a.x, y: b.y, z: b.z },
            Vec3 { x: b.x, y: b.y, z: b.z },
            Vec3 { x: b.x, y: a.y, z: b.z },
            Vec3 { x: a.x, y: a.y, z: b.z },
        ]
    }

    /// `moved` are the corners after the transformation, in their order.
    pub open spec fn moves_corners<T: Fn(Vec3) -> Vec3>(self, t: &T, moved: Seq<Vec3>) -> bool {
        &&& moved.len() == 8
        &&& forall|k: int| 0 <= k < 8 ==> call_ensures(t, (self.corners()[k],), #[trigger] moved[k])
    }

    fn corner(&self, k: usize) -> (p: Vec3)
        requires
            k < 8,
        ensures
            p == self.corners()[k as int],
    {
        let x = if k % 4 == 0 || k % 4 == 3 {
            self.min.x
        } else {
            self.max.x
        };
        let y = if k % 4 < 2 {
            self.max.y
        } else {
            self.min.y
        };
        let z = if k < 4 {
            self.min.z
        } else {
            self.max.z
        };
        Vec3 { x, y, z }
    }

    /// The smallest box round the transformed corners.
    pub fn transform<T: Fn(Vec3) -> Vec3>(&self, t: &T) -> (b: BBox)
        requires
            moves_all(t),
        ensures
            exists|moved: Seq<Vec3>| #[trigger] self.moves_corners(t, moved) && b == hull(moved),
    {
        let first = t(self.corner(0));
        let mut b = BBox { min: first, max: first };
        let ghost mut moved: Seq<Vec3> = seq![first];
        let mut k: usize = 1;
        while k < 8
            invariant
                1 <= k <= 8,
                moves_all(t),
                moved.len() == k,
                forall|j: int| 0 <= j < k ==> call_ensures(t, (self.corners()[j],), #[trigger] moved[j]),
                b == hull(moved),
            decreases 8 - k,
        {
            let p = t(self.corner(k));
            proof {
                assert(moved.push(p).drop_last() =~= moved);
                moved = moved.push(p);
            }
            b = BBox {
                min: Vec3::new(b.min.x.min(p.x), b.min.y.min(p.y), b.min.z.min(p.z)),
                max: Vec3::new(b.max.x.max(p.x), b.max.y.max(p.y), b.max.z.max(p.z)),
            };
            k += 1;
        }
        assert(self.moves_corners(t, moved));
        b
    }

    /// The point halfway between the corners: their sum, scaled by a half.
    pub fn center<E: Fn(Op) -> Scalar>(self, unit: &E) -> (p: Vec3)
        requires
            total(unit),
        ensures
            exists|sum: Vec3| #[trigger]
                Vec3::is_sum(unit, self.min, self.max, sum) && Vec3::is_scaled(
                    unit,
                    sum,
                    Scalar::half(),
                    p,
                ),
            forall|model: Model| #[trigger]
                follows(unit, model) ==> p == Vec3::scaled(
                    model,
                    Vec3::sum(model, self.min, self.max),
                    Scalar::half(),
                ),
    {
        let sum = self.min.add(self.max, unit);
        sum.scale(Scalar::half(), unit)
    }
}

/// A plane by its normal and its distance from the origin.
#[derive(Clone, Copy, PartialEq, Eq, Structural, Debug)]
pub struct Plane {
    pub normal: Vec3,
    pub dist: Scalar,
}

impl Plane {
    pub fn new(normal: Vec3, dist: Scalar) -> (p: Plane)
        ensures
            p == (Plane { normal, dist }),
    {
        Plane { normal, dist }
    }
}

/// A circle by its center and radius.
#[derive(Clone, Copy, PartialEq, Eq, Structural, Debug)]
pub struct Circle {
    pub center: Vec2,
    pub radius: Scalar,
}

impl Circle {
    pub fn new(center: Vec2, radius: Scalar) -> (c: Circle)
        ensures
            c == (Circle { center, radius }),
    {
        Circle { center, radius }
    }

    /// The square round the circle: from the center less the radius on each
    /// axis to the center plus the radius.
    pub fn rect<E: Fn(Op) -> Scalar>(&self, unit: &E) -> (r: Rect)
        requires
            total(unit),
        ensures
            Vec2::is_difference(
                unit,
                self.center,
                Vec2 { x: self.radius, y: self.radius },
                r.p1,
            ),
            Vec2::is_sum(unit, self.center, Vec2 { x: self.radius, y: self.radius }, r.p2),
    {
        let min = self.center.sub(Vec2::all(self.radius), unit);
        let max = self.center.add(Vec2::all(self.radius), unit);
        Rect::new(min, max)
    }
}

/// A sphere by its center and radius.
#[derive(Clone, Copy, PartialEq, Eq, Structural, Debug)]
pub struct Sphere {
    pub center: Vec3,
    pub radius: Scalar,
}

impl Sphere {
    pub fn new(center: Vec3, radius: Scalar) -> (s: Sphere)
        ensures
            s == (Sphere { center, radius }),
    {
        Sphere { center, radius }
    }

    /// The cube round the sphere: from the center less the radius on each
    /// axis to the center plus the radius.
    pub fn bbox<E: Fn(Op) -> Scalar>(&self, unit: &E) -> (b: BBox)
        requires
            total(unit),
        ensures
            Vec3::is_difference(
                unit,
                self.center,
                Vec3 { x: self.radius, y: self.radius, z: self.radius },
                b.min,
            ),
            Vec3::is_sum(
                unit,
                self.center,
                Vec3 { x: self.radius, y: self.radius, z: self.radius },
                b.max,
            ),
    {
        let min = self.center.sub(Vec3::all(self.radius), unit);
        let max = self.center.add(Vec3::all(self.radius), unit);
        BBox::new(min, max)
    }
}

/// One of the three axes of space.
#[derive(Clone, Copy, PartialEq, Eq, Structural, Debug)]
pub enum Axis {
    X,
    Y,
    Z,
}

impl Axis {
    /// The unit vector along the axis.
    pub open spec fn unit_vector(self) -> Vec3 {
        let zero = Scalar::zero();
        let one = Scalar::one();
        match self {
            Axis::X => Vec3 { x: one, y: zero, z: zero },
            Axis::Y => Vec3 { x: zero, y: one, z: zero },
            Axis::Z => Vec3 { x: zero, y: zero, z: one },
        }
    }

    pub fn as_vec3(&self) -> (v: Vec3)
        ensures
            v == self.unit_vector(),
    {
        let zero = Scalar::zero();
        let one = Scalar::one();
        match self {
            Axis::X => Vec3::new(one, zero, zero),
            Axis::Y => Vec3::new(zero, one, zero),
            Axis::Z => Vec3::new(zero, zero, one),
        }
    }
}

/// One of the four directions of the screen, where `y` grows downwards.
#[derive(Clone, Copy, PartialEq, Eq, Structural, Debug)]
pub enum Dir {
    Right,
    Down,
    Left,
    Up,
}

impl Dir {
    /// The unit vector that points in the direction.
    pub open spec fn unit_vector(self) -> Vec2 {
        let zero = Scalar::zero();
        let one = Scalar::one();
        let minus_one = Scalar::minus_one();
        match self {
            Dir::Right => Vec2 { x: one, y: zero },
            Dir::Down => Vec2 { x: zero, y: one },
            Dir::Left => Vec2 { x: minus_one, y: zero },
            Dir::Up => Vec2 { x: zero, y: minus_one },
        }
    }

    pub fn as_vec2(&self) -> (v: Vec2)
        ensures
            v == self.unit_vector(),
    {
        let zero = Scalar::zero();
        let one = Scalar::one();
        let minus_one = Scalar::minus_one();
        match self {
            Dir::Right => Vec2::new(one, zero),
            Dir::Down => Vec2::new(zero, one),
            Dir::Left => Vec2::new(minus_one, zero),
            Dir::Up => Vec2::new(zero, minus_one),
        }
    }
}

} // verus!
