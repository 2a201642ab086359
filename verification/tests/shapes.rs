use sdf_shapes::scalar::Scalar;
use sdf_shapes::shapes::Circle;
use sdf_shapes::shapes::Cuboid;
use sdf_shapes::shapes::Cylinder;
use sdf_shapes::shapes::Difference;
use sdf_shapes::shapes::Intersection;
use sdf_shapes::shapes::Inverse;
use sdf_shapes::shapes::Move;
use sdf_shapes::shapes::Onion;
use sdf_shapes::shapes::Rect;
use sdf_shapes::shapes::Repeat;
use sdf_shapes::shapes::Round;
use sdf_shapes::shapes::Scale;
use sdf_shapes::shapes::Sphere;
use sdf_shapes::shapes::Torus;
use sdf_shapes::shapes::Twist;
use sdf_shapes::shapes::Union;
use sdf_shapes::shapes::Vec2;
use sdf_shapes::shapes::Vec3;
use sdf_shapes::tree::Tree;

fn sc(s: &Scalar) -> f64 {
    match s {
        Scalar::Rational { num, den } => *num as f64 / *den as f64,
        Scalar::PosInf => f64::INFINITY,
        Scalar::NegInf => f64::NEG_INFINITY,
    }
}

/// Evaluates a tree at a point with 64-bit floats; `modulo` follows the
/// positive-period convention (result in `[0, p)` for positive `p`).
fn ev(t: &Tree, x: f64, y: f64, z: f64) -> f64 {
    match t {
        Tree::X => x,
        Tree::Y => y,
        Tree::Z => z,
        Tree::Constant(s) => sc(s),
        Tree::Neg(a) => -ev(a, x, y, z),
        Tree::Add(a, b) => ev(a, x, y, z) + ev(b, x, y, z),
        Tree::Sub(a, b) => ev(a, x, y, z) - ev(b, x, y, z),
        Tree::Mul(a, b) => ev(a, x, y, z) * ev(b, x, y, z),
        Tree::Div(a, b) => ev(a, x, y, z) / ev(b, x, y, z),
        Tree::Min(a, b) => ev(a, x, y, z).min(ev(b, x, y, z)),
        Tree::Max(a, b) => ev(a, x, y, z).max(ev(b, x, y, z)),
        Tree::Abs(a) => ev(a, x, y, z).abs(),
        Tree::Square(a) => {
            let v = ev(a, x, y, z);
            v * v
        }
        Tree::Sqrt(a) => ev(a, x, y, z).sqrt(),
        Tree::Sin(a) => ev(a, x, y, z).sin(),
        Tree::Cos(a) => ev(a, x, y, z).cos(),
        Tree::Modulo(a, s) => ev(a, x, y, z).rem_euclid(sc(s)),
    }
}

fn close(a: f64, b: f64) -> bool {
    (a - b).abs() < 1e-6
}

fn si(v: i64) -> Scalar {
    Scalar::from_int(v)
}

fn sr(num: i64, den: u64) -> Scalar {
    Scalar::new(num, den)
}

fn v2(x: i64, y: i64) -> Vec2 {
    Vec2 { x: si(x), y: si(y) }
}

fn v3(x: i64, y: i64, z: i64) -> Vec3 {
    Vec3 { x: si(x), y: si(y), z: si(z) }
}

fn sphere_at_origin(radius: Scalar) -> Tree {
    Sphere { center: v3(0, 0, 0), radius }.to_tree()
}

/// The number of combine nodes stacked on the deepest path; meaningful for
/// reductions over combine-free inputs such as constants.
fn combine_depth(t: &Tree) -> u32 {
    match t {
        Tree::Min(a, b) => 1 + combine_depth(a).max(combine_depth(b)),
        Tree::Max(a, b) => 1 + combine_depth(a).max(combine_depth(b)),
        _ => 0,
    }
}

#[test]
fn circle_docstring() {
    assert_eq!(Circle::doc(), " 2D circle");
}

#[test]
fn rect_docstring() {
    assert_eq!(Rect::doc(), " Axis-aligned rectangle");
}

#[test]
fn cuboid_docstring() {
    assert_eq!(Cuboid::doc(), " Axis-aligned box");
}

#[test]
fn cylinder_docstring() {
    assert_eq!(Cylinder::doc(), " Finite cylinder aligned with the Y axis");
}

#[test]
fn torus_docstring() {
    assert_eq!(Torus::doc(), " Torus aligned with the Y axis");
}

#[test]
fn round_docstring() {
    assert_eq!(Round::doc(), " Uniformly round (or offset) a shape");
}

#[test]
fn onion_docstring() {
    assert_eq!(Onion::doc(), " Form a shell of constant thickness around a shape");
}

#[test]
fn repeat_docstring() {
    assert_eq!(Repeat::doc(), " Repeat a shape with the given periodicity");
}

#[test]
fn twist_docstring() {
    assert_eq!(Twist::doc(), " Twist a shape around the Y axis");
}

#[test]
fn rect_sdf() {
    let rect = Rect { center: v2(0, 0), half_size: v2(1, 2) };
    let t = rect.to_tree();
    assert!(close(ev(&t, 0.0, 0.0, 0.0), -1.0));
    assert!(close(ev(&t, 2.0, 0.0, 0.0), 1.0));
    assert!(close(ev(&t, 0.0, 3.0, 0.0), 1.0));
}

#[test]
fn cuboid_sdf() {
    let cuboid = Cuboid { center: v3(0, 0, 0), half_size: v3(1, 2, 3) };
    let t = cuboid.to_tree();
    assert!(close(ev(&t, 0.0, 0.0, 0.0), -1.0));
    assert!(close(ev(&t, 2.0, 0.0, 0.0), 1.0));
    assert!(close(ev(&t, 0.0, 0.0, 4.0), 1.0));
}

#[test]
fn cylinder_sdf() {
    let cyl = Cylinder { center: v3(0, 0, 0), radius: si(1), half_height: si(2) };
    let t = cyl.to_tree();
    assert!(close(ev(&t, 0.0, 0.0, 0.0), -1.0));
    assert!(close(ev(&t, 2.0, 0.0, 0.0), 1.0));
    assert!(close(ev(&t, 0.0, 3.0, 0.0), 1.0));
    assert!(close(ev(&t, 2.0, 3.0, 0.0), 1.4142135));
}

#[test]
fn torus_sdf_values() {
    let torus = Torus { center: v3(0, 0, 0), major_radius: si(3), tube_radius: si(1) };
    let t = torus.to_tree();
    assert!(close(ev(&t, 4.0, 0.0, 0.0), 0.0));
    assert!(close(ev(&t, 3.0, 0.0, 0.0), -1.0));
    assert!(close(ev(&t, 0.0, 0.0, 0.0), 2.0));
}

#[test]
fn round_sdf() {
    let round = Round { shape: sphere_at_origin(si(1)), radius: sr(1, 2) };
    let t = round.to_tree();
    assert!(close(ev(&t, 0.0, 0.0, 0.0), -1.5));
    assert!(close(ev(&t, 1.5, 0.0, 0.0), 0.0));
}

#[test]
fn onion_sdf() {
    let onion = Onion { shape: sphere_at_origin(si(1)), thickness: sr(1, 10) };
    let t = onion.to_tree();
    assert!(close(ev(&t, 0.0, 0.0, 0.0), 0.9));
    assert!(close(ev(&t, 1.0, 0.0, 0.0), -0.1));
}

#[test]
fn repeat_sdf() {
    let repeat = Repeat { shape: sphere_at_origin(si(1)), cell: v3(4, 4, 4) };
    let t = repeat.to_tree();
    assert!(close(ev(&t, 0.0, 0.0, 0.0), -1.0));
    assert!(close(ev(&t, 3.0, 0.0, 0.0), 0.0));
}

#[test]
fn circle_interior_exterior() {
    let t = Circle { center: v2(1, 0), radius: si(2) }.to_tree();
    assert!(ev(&t, 1.0, 0.0, 0.0) < 0.0);
    assert!(ev(&t, 1.0, 1.0, 0.0) < 0.0);
    assert!(ev(&t, 4.0, 0.0, 0.0) > 0.0);
    assert!(ev(&t, 1.0, -5.0, 0.0) > 0.0);
}

#[test]
fn sphere_interior_exterior() {
    let t = Sphere { center: v3(0, 1, 0), radius: si(1) }.to_tree();
    assert!(ev(&t, 0.0, 1.0, 0.0) < 0.0);
    assert!(ev(&t, 0.5, 1.0, 0.0) < 0.0);
    assert!(ev(&t, 3.0, 1.0, 0.0) > 0.0);
    assert!(ev(&t, 0.0, -1.0, 0.0) > 0.0);
}

#[test]
fn inverse_negates_field() {
    let s = sphere_at_origin(si(1));
    let inv = Inverse { shape: s.clone() }.to_tree();
    for p in [(0.0, 0.0, 0.0), (1.0, 2.0, 3.0), (-0.5, 0.25, 0.75)] {
        assert!(close(ev(&inv, p.0, p.1, p.2), -ev(&s, p.0, p.1, p.2)));
    }
}

#[test]
fn inverse_idempotent() {
    let s = sphere_at_origin(si(1));
    let twice = Inverse { shape: Inverse { shape: s.clone() }.to_tree() }.to_tree();
    for p in [(0.0, 0.0, 0.0), (1.0, 2.0, 3.0), (-0.5, 0.25, 0.75)] {
        assert!(close(ev(&twice, p.0, p.1, p.2), ev(&s, p.0, p.1, p.2)));
    }
}

#[test]
fn difference_is_max_of_negated_cutout() {
    let a = sphere_at_origin(si(2));
    let b = Sphere { center: v3(1, 0, 0), radius: si(1) }.to_tree();
    let d = Difference { shape: a.clone(), cutout: b.clone() }.to_tree();
    for p in [(0.0, 0.0, 0.0), (1.0, 0.0, 0.0), (1.5, 0.5, 0.0), (3.0, 0.0, 0.0)] {
        let want = ev(&a, p.0, p.1, p.2).max(-ev(&b, p.0, p.1, p.2));
        assert!(close(ev(&d, p.0, p.1, p.2), want));
    }
}

#[test]
fn round_shifts_field() {
    let s = sphere_at_origin(si(2));
    let r = Round { shape: s.clone(), radius: sr(1, 4) }.to_tree();
    for p in [(0.0, 0.0, 0.0), (1.0, 1.0, 1.0), (3.0, 0.0, 0.0)] {
        assert!(close(ev(&r, p.0, p.1, p.2), ev(&s, p.0, p.1, p.2) - 0.25));
    }
}

#[test]
fn onion_zero_set_is_two_sided() {
    let o = Onion { shape: sphere_at_origin(si(1)), thickness: sr(1, 10) }.to_tree();
    assert!(close(ev(&o, 1.1, 0.0, 0.0), 0.0));
    assert!(close(ev(&o, 0.9, 0.0, 0.0), 0.0));
    assert!(ev(&o, 1.0, 0.0, 0.0) < 0.0);
}

#[test]
fn union_empty_is_positive_infinity() {
    let t = Union { input: vec![] }.to_tree();
    assert!(ev(&t, 0.0, 0.0, 0.0).is_infinite());
    assert!(ev(&t, 0.0, 0.0, 0.0) > 0.0);
}

#[test]
fn intersection_empty_is_negative_infinity() {
    let t = Intersection { input: vec![] }.to_tree();
    assert!(ev(&t, 0.0, 0.0, 0.0).is_infinite());
    assert!(ev(&t, 0.0, 0.0, 0.0) < 0.0);
}

#[test]
fn union_of_one_is_that_tree() {
    let s = sphere_at_origin(si(1));
    let t = Union { input: vec![s.clone()] }.to_tree();
    assert_eq!(t, s);
}

#[test]
fn intersection_of_one_is_that_tree() {
    let s = sphere_at_origin(si(1));
    let t = Intersection { input: vec![s.clone()] }.to_tree();
    assert_eq!(t, s);
}

#[test]
fn union_evaluates_to_minimum() {
    let a = sphere_at_origin(si(1));
    let b = Sphere { center: v3(2, 0, 0), radius: si(1) }.to_tree();
    let c = Sphere { center: v3(0, 3, 0), radius: si(2) }.to_tree();
    let u = Union { input: vec![a.clone(), b.clone(), c.clone()] }.to_tree();
    for p in [(0.0, 0.0, 0.0), (2.0, 0.0, 0.0), (0.0, 2.5, 0.0), (5.0, 5.0, 5.0)] {
        let want = ev(&a, p.0, p.1, p.2).min(ev(&b, p.0, p.1, p.2)).min(ev(&c, p.0, p.1, p.2));
        assert!(close(ev(&u, p.0, p.1, p.2), want));
    }
}

#[test]
fn union_commutative_and_associative_as_field() {
    let a = sphere_at_origin(si(1));
    let b = Sphere { center: v3(2, 0, 0), radius: si(1) }.to_tree();
    let c = Sphere { center: v3(0, 3, 0), radius: si(2) }.to_tree();
    let u1 = Union { input: vec![a.clone(), b.clone(), c.clone()] }.to_tree();
    let u2 = Union { input: vec![c.clone(), a.clone(), b.clone()] }.to_tree();
    let nested = Union {
        input: vec![Union { input: vec![a.clone(), b.clone()] }.to_tree(), c.clone()],
    }
    .to_tree();
    for p in [(0.0, 0.0, 0.0), (1.5, 0.0, 0.0), (0.0, 2.0, 0.0), (-3.0, 1.0, 2.0)] {
        let v1 = ev(&u1, p.0, p.1, p.2);
        assert!(close(v1, ev(&u2, p.0, p.1, p.2)));
        assert!(close(v1, ev(&nested, p.0, p.1, p.2)));
    }
}

#[test]
fn intersection_evaluates_to_maximum() {
    let a = sphere_at_origin(si(2));
    let b = Sphere { center: v3(1, 0, 0), radius: si(2) }.to_tree();
    let i = Intersection { input: vec![a.clone(), b.clone()] }.to_tree();
    for p in [(0.0, 0.0, 0.0), (1.0, 1.0, 0.0), (4.0, 0.0, 0.0)] {
        let want = ev(&a, p.0, p.1, p.2).max(ev(&b, p.0, p.1, p.2));
        assert!(close(ev(&i, p.0, p.1, p.2), want));
    }
}

#[test]
fn union_depth_is_log_of_inputs() {
    for (n, want) in [(1usize, 0u32), (2, 1), (3, 2), (4, 2), (5, 3), (8, 3), (9, 4)] {
        let input: Vec<Tree> = (0..n).map(|i| Tree::constant(si(i as i64))).collect();
        let t = Union { input }.to_tree();
        assert_eq!(combine_depth(&t), want);
    }
}

#[test]
fn intersection_depth_is_log_of_inputs() {
    for (n, want) in [(1usize, 0u32), (2, 1), (6, 3), (7, 3), (16, 4)] {
        let input: Vec<Tree> = (0..n).map(|i| Tree::constant(si(i as i64))).collect();
        let t = Intersection { input }.to_tree();
        assert_eq!(combine_depth(&t), want);
    }
}

#[test]
fn move_translates_world_space() {
    let moved = Move { shape: sphere_at_origin(si(1)), offset: v3(1, 2, 3) }.to_tree();
    let centered = Sphere { center: v3(1, 2, 3), radius: si(1) }.to_tree();
    for p in [(1.0, 2.0, 3.0), (0.0, 0.0, 0.0), (2.0, 2.0, 3.0), (-1.0, 0.5, 4.0)] {
        assert!(close(ev(&moved, p.0, p.1, p.2), ev(&centered, p.0, p.1, p.2)));
    }
    assert!(close(ev(&moved, 1.0, 2.0, 3.0), -1.0));
}

#[test]
fn scale_stretches_zero_set() {
    let t = Scale { shape: sphere_at_origin(si(1)), scale: v3(2, 1, 1) }.to_tree();
    assert!(close(ev(&t, 2.0, 0.0, 0.0), 0.0));
    assert!(close(ev(&t, 0.0, 1.0, 0.0), 0.0));
    assert!(ev(&t, 0.0, 0.0, 0.0) < 0.0);
    assert!(ev(&t, 2.5, 0.0, 0.0) > 0.0);
}

#[test]
fn scale_fractional_components() {
    let t = Scale { shape: sphere_at_origin(si(1)), scale: Vec3 { x: sr(1, 2), y: si(1), z: si(1) } }
        .to_tree();
    assert!(close(ev(&t, 0.5, 0.0, 0.0), 0.0));
    assert!(ev(&t, 0.75, 0.0, 0.0) > 0.0);
}

#[test]
fn twist_keeps_centered_sphere() {
    let t = Twist { shape: sphere_at_origin(si(1)), k: si(1) }.to_tree();
    let s = sphere_at_origin(si(1));
    for p in [(0.5, 0.7, 0.3), (1.0, 1.0, 1.0), (0.0, 2.0, 0.0)] {
        assert!(close(ev(&t, p.0, p.1, p.2), ev(&s, p.0, p.1, p.2)));
    }
}

#[test]
fn twist_rotates_offset_shape() {
    // at height pi/2 (about 1.5708) a unit twist rotates a quarter turn
    let cyl = Cylinder { center: v3(0, 0, 0), radius: si(1), half_height: si(2) }.to_tree();
    let moved = Move { shape: cyl, offset: v3(2, 0, 0) }.to_tree();
    let t = Twist { shape: moved, k: si(1) }.to_tree();
    let h = std::f64::consts::FRAC_PI_2;
    // the column's slice at that height sits near z = -2 in world space
    assert!(ev(&t, 0.0, h, -2.0) < 0.0);
    assert!(ev(&t, 2.0, h, 0.0) > 0.0);
}

#[test]
fn catalog_docs() {
    assert_eq!(Sphere::doc(), " 3D sphere");
    assert_eq!(Union::doc(), " Take the union of a set of shapes");
    assert_eq!(Intersection::doc(), " Take the intersection of a set of shapes");
    assert_eq!(Inverse::doc(), " Computes the inverse of a shape");
    assert_eq!(Difference::doc(), " Take the difference of two shapes");
    assert_eq!(Move::doc(), " Move a shape");
    assert_eq!(Scale::doc(), " Non-uniform scaling");
}
