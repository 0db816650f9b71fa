use dirty::arith::Op;
use dirty::geom::{Axis, BBox, Circle, Dir, Line2, Line3, Plane, Ray2, Ray3, Rect, Sphere};
use dirty::math::{Color, Vec2, Vec3};
use dirty::scalar::Scalar;

fn s(v: f32) -> Scalar {
    Scalar::from_bits(v.to_bits())
}

fn v(x: Scalar) -> f32 {
    f32::from_bits(x.to_bits())
}

fn v2(x: f32, y: f32) -> Vec2 {
    Vec2::new(s(x), s(y))
}

fn v3(x: f32, y: f32, z: f32) -> Vec3 {
    Vec3::new(s(x), s(y), s(z))
}

fn native(op: Op) -> Scalar {
    match op {
        Op::Add(a, b) => s(v(a) + v(b)),
        Op::Sub(a, b) => s(v(a) - v(b)),
        Op::Mul(a, b) => s(v(a) * v(b)),
        Op::Pow(a, b) => s(v(a).powf(v(b))),
        Op::Count(n) => s(n as f32),
    }
}

#[test]
fn vectors_add_subtract_and_scale_by_part() {
    assert_eq!(v2(1.0, 2.0).add(v2(0.5, -4.0), &native), v2(1.5, -2.0));
    assert_eq!(v2(1.0, 2.0).sub(v2(0.5, -4.0), &native), v2(0.5, 6.0));
    assert_eq!(v2(1.0, 2.0).scale(s(3.0), &native), v2(3.0, 6.0));
    assert_eq!(v3(1.0, 2.0, 3.0).add(v3(1.0, 1.0, 1.0), &native), v3(2.0, 3.0, 4.0));
    assert_eq!(v3(1.0, 2.0, 3.0).sub(v3(1.0, 1.0, 1.0), &native), v3(0.0, 1.0, 2.0));
    assert_eq!(v3(1.0, 2.0, 3.0).scale(s(-2.0), &native), v3(-2.0, -4.0, -6.0));
    assert_eq!(Vec2::all(s(7.0)), v2(7.0, 7.0));
    assert_eq!(Vec3::all(s(7.0)), v3(7.0, 7.0, 7.0));
    assert_eq!(Vec2::default(), v2(0.0, 0.0));
    assert_eq!(Vec3::default(), v3(0.0, 0.0, 0.0));
}

#[test]
fn default_color_is_opaque_white() {
    assert_eq!(Color::default(), Color::new(s(1.0), s(1.0), s(1.0), s(1.0)));
    assert_eq!(Color::all(s(0.5)), Color::new(s(0.5), s(0.5), s(0.5), s(0.5)));
}

#[test]
fn constructors_keep_their_arguments() {
    let r3 = Ray3::new(v3(1.0, 2.0, 3.0), v3(0.0, 1.0, 0.0));
    assert_eq!((r3.origin, r3.dir), (v3(1.0, 2.0, 3.0), v3(0.0, 1.0, 0.0)));
    let r2 = Ray2::new(v2(1.0, 2.0), v2(0.0, 1.0));
    assert_eq!((r2.origin, r2.dir), (v2(1.0, 2.0), v2(0.0, 1.0)));
    let l2 = Line2::new(v2(1.0, 2.0), v2(3.0, 4.0));
    assert_eq!((l2.p1, l2.p2), (v2(1.0, 2.0), v2(3.0, 4.0)));
    let l3 = Line3::new(v3(1.0, 2.0, 3.0), v3(4.0, 5.0, 6.0));
    assert_eq!((l3.p1, l3.p2), (v3(1.0, 2.0, 3.0), v3(4.0, 5.0, 6.0)));
    let r = Rect::new(v2(1.0, 2.0), v2(3.0, 4.0));
    assert_eq!((r.p1, r.p2), (v2(1.0, 2.0), v2(3.0, 4.0)));
    let b = BBox::new(v3(1.0, 2.0, 3.0), v3(4.0, 5.0, 6.0));
    assert_eq!((b.min, b.max), (v3(1.0, 2.0, 3.0), v3(4.0, 5.0, 6.0)));
    let p = Plane::new(v3(0.0, 1.0, 0.0), s(2.0));
    assert_eq!((p.normal, p.dist), (v3(0.0, 1.0, 0.0), s(2.0)));
    let c = Circle::new(v2(1.0, 2.0), s(3.0));
    assert_eq!((c.center, c.radius), (v2(1.0, 2.0), s(3.0)));
    let sp = Sphere::new(v3(1.0, 2.0, 3.0), s(4.0));
    assert_eq!((sp.center, sp.radius), (v3(1.0, 2.0, 3.0), s(4.0)));
}

#[test]
fn rays_reach_along_their_direction() {
    let r3 = Ray3::new(v3(1.0, 2.0, 3.0), v3(0.0, 1.0, -1.0));
    assert_eq!(r3.at(s(2.0), &native), v3(1.0, 4.0, 1.0));
    let r2 = Ray2::new(v2(1.0, 2.0), v2(0.5, 0.0));
    assert_eq!(r2.at(s(4.0), &native), v2(3.0, 2.0));
}

#[test]
fn rect_measures_itself() {
    let r = Rect::new(v2(1.0, 6.0), v2(4.0, 2.0));
    assert_eq!(r.center(&native), v2(2.5, 4.0));
    assert_eq!(r.width(&native), s(3.0));
    assert_eq!(r.height(&native), s(4.0));
}

#[test]
fn bbox_center_is_halfway() {
    let b = BBox::new(v3(0.0, 2.0, -4.0), v3(2.0, 4.0, 4.0));
    assert_eq!(b.center(&native), v3(1.0, 3.0, 0.0));
}

#[test]
fn bbox_wraps_a_point_round_each_axis() {
    let b = BBox::new(v3(0.0, 0.0, 0.0), v3(10.0, 20.0, 30.0));
    assert_eq!(b.wrap(v3(5.0, 5.0, 5.0)), v3(5.0, 5.0, 5.0));
    assert_eq!(b.wrap(v3(-1.0, 5.0, 5.0)), v3(10.0, 5.0, 5.0));
    assert_eq!(b.wrap(v3(11.0, 5.0, 5.0)), v3(0.0, 5.0, 5.0));
    assert_eq!(b.wrap(v3(5.0, -0.5, 31.0)), v3(5.0, 20.0, 0.0));
    assert_eq!(b.wrap(v3(0.0, 20.0, 30.0)), v3(0.0, 20.0, 30.0));
    let out = b.wrap(v3(f32::NAN, 5.0, 5.0));
    assert!(v(out.x).is_nan());
}

#[test]
fn bbox_max_holds_both_and_min_is_what_they_share() {
    let a = BBox::new(v3(0.0, 0.0, 0.0), v3(2.0, 2.0, 2.0));
    let b = BBox::new(v3(1.0, -1.0, 1.0), v3(3.0, 1.0, 5.0));
    assert_eq!(BBox::max(a, b), BBox::new(v3(0.0, -1.0, 0.0), v3(3.0, 2.0, 5.0)));
    assert_eq!(BBox::min(a, b), BBox::new(v3(1.0, 0.0, 1.0), v3(2.0, 1.0, 2.0)));
}

#[test]
fn circle_and_sphere_are_boxed() {
    let c = Circle::new(v2(1.0, 2.0), s(3.0));
    assert_eq!(c.rect(&native), Rect::new(v2(-2.0, -1.0), v2(4.0, 5.0)));
    let sp = Sphere::new(v3(1.0, 2.0, 3.0), s(1.0));
    assert_eq!(sp.bbox(&native), BBox::new(v3(0.0, 1.0, 2.0), v3(2.0, 3.0, 4.0)));
}

#[test]
fn axes_and_directions_are_unit_vectors() {
    assert_eq!(Axis::X.as_vec3(), v3(1.0, 0.0, 0.0));
    assert_eq!(Axis::Y.as_vec3(), v3(0.0, 1.0, 0.0));
    assert_eq!(Axis::Z.as_vec3(), v3(0.0, 0.0, 1.0));
    assert_eq!(Dir::Right.as_vec2(), v2(1.0, 0.0));
    assert_eq!(Dir::Down.as_vec2(), v2(0.0, 1.0));
    assert_eq!(Dir::Left.as_vec2(), v2(-1.0, 0.0));
    assert_eq!(Dir::Up.as_vec2(), v2(0.0, -1.0));
}

#[test]
fn bbox_transform_boxes_the_moved_corners() {
    let b = BBox::new(v3(0.0, 0.0, 0.0), v3(1.0, 2.0, 3.0));
    // A quarter turn round the z axis, then a shift.
    let turn = |p: Vec3| v3(-v(p.y) + 10.0, v(p.x), v(p.z) - 1.0);
    assert_eq!(b.transform(&turn), BBox::new(v3(8.0, 0.0, -1.0), v3(10.0, 1.0, 2.0)));
    let same = |p: Vec3| p;
    assert_eq!(b.transform(&same), b);
    let flat = |_: Vec3| v3(4.0, 5.0, 6.0);
    assert_eq!(b.transform(&flat), BBox::new(v3(4.0, 5.0, 6.0), v3(4.0, 5.0, 6.0)));
}

#[test]
fn bbox_transform_visits_the_corners_in_order() {
    let b = BBox::new(v3(0.0, 0.0, 0.0), v3(1.0, 2.0, 3.0));
    let seen = std::cell::RefCell::new(Vec::new());
    let watch = |p: Vec3| {
        seen.borrow_mut().push(p);
        p
    };
    b.transform(&watch);
    assert_eq!(
        *seen.borrow(),
        vec![
            v3(0.0, 2.0, 0.0),
            v3(1.0, 2.0, 0.0),
            v3(1.0, 0.0, 0.0),
            v3(0.0, 0.0, 0.0),
            v3(0.0, 2.0, 3.0),
            v3(1.0, 2.0, 3.0),
            v3(1.0, 0.0, 3.0),
            v3(0.0, 0.0, 3.0),
        ]
    );
}
