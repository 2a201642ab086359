//! The catalog of shapes and transforms: primitives, constructive-solid
//! combinators, morphological operators and affine transforms. Every record
//! offers exactly one operation, `to_tree`, whose contract states what the
//! produced tree evaluates to at an arbitrary point.

use vstd::prelude::*;

use crate::laws::clog2;
use crate::laws::lemma_reduce_levels;
use crate::laws::reduce_levels;
use crate::scalar::Scalar;
use crate::semantics::Ext;
use crate::semantics::MathModel;
use crate::semantics::Point;
use crate::semantics::affine_coord;
use crate::semantics::ext_abs;
use crate::semantics::ext_add;
use crate::semantics::ext_max;
use crate::semantics::ext_min;
use crate::semantics::ext_mul;
use crate::semantics::ext_neg;
use crate::semantics::ext_one;
use crate::semantics::ext_recip;
use crate::semantics::ext_sub;
use crate::semantics::ext_zero;
use crate::semantics::repeat_coord;
use crate::tree::Affine;
use crate::tree::Tree;
use crate::tree::eval;

verus! {

/// A value record of two scalar components.
#[derive(Clone, Copy, Debug, PartialEq, Eq, Structural)]
pub struct Vec2 {
    pub x: Scalar,
    pub y: Scalar,
}

/// A value record of three scalar components.
#[derive(Clone, Copy, Debug, PartialEq, Eq, Structural)]
pub struct Vec3 {
    pub x: Scalar,
    pub y: Scalar,
    pub z: Scalar,
}

/// A value record of four scalar components.
#[derive(Clone, Copy, Debug, PartialEq, Eq, Structural)]
pub struct Vec4 {
    pub x: Scalar,
    pub y: Scalar,
    pub z: Scalar,
    pub w: Scalar,
}

/// 2D circle
#[derive(Clone, Debug, PartialEq, Eq)]
pub struct Circle {
    /// Center of the circle (in XY)
    pub center: Vec2,
    /// Circle radius
    pub radius: Scalar,
}

impl Circle {
    /// The circle's signed distance at a point:
    /// `sqrt((x - cx)^2 + (y - cy)^2) - r`.
    pub open spec fn sdf(self, p: Point, m: MathModel) -> Ext {
        let dx = ext_sub(p.x, self.center.x@);
        let dy = ext_sub(p.y, self.center.y@);
        ext_sub((m.sqrt)(ext_add(ext_mul(dx, dx), ext_mul(dy, dy))), self.radius@)
    }

    pub fn doc() -> (r: &'static str)
        ensures
            r@ == " 2D circle"@,
    {
        " 2D circle"
    }

    pub fn to_tree(self) -> (r: Tree)
        ensures
            forall|p: Point, m: MathModel| #[trigger] eval(r, p, m) == self.sdf(p, m),
    {
        let (x, y, _z) = Tree::axes();
        let dx = x.sub(Tree::constant(self.center.x));
        let dy = y.sub(Tree::constant(self.center.y));
        dx.square().add(dy.square()).sqrt().sub(Tree::constant(self.radius))
    }
}

/// Axis-aligned rectangle
#[derive(Clone, Debug, PartialEq, Eq)]
pub struct Rect {
    /// Center of the rectangle (in XY)
    pub center: Vec2,
    /// Half-size of the rectangle on each axis
    pub half_size: Vec2,
}

impl Rect {
    /// The rectangle's signed distance at a point: exact Euclidean distance
    /// outside, signed-max approximation inside.
    pub open spec fn sdf(self, p: Point, m: MathModel) -> Ext {
        let dx = ext_sub(ext_abs(ext_sub(p.x, self.center.x@)), self.half_size.x@);
        let dy = ext_sub(ext_abs(ext_sub(p.y, self.center.y@)), self.half_size.y@);
        let ox = ext_max(dx, ext_zero());
        let oy = ext_max(dy, ext_zero());
        ext_add(
            (m.sqrt)(ext_add(ext_mul(ox, ox), ext_mul(oy, oy))),
            ext_min(ext_max(dx, dy), ext_zero()),
        )
    }

    pub fn doc() -> (r: &'static str)
        ensures
            r@ == " Axis-aligned rectangle"@,
    {
        " Axis-aligned rectangle"
    }

    pub fn to_tree(self) -> (r: Tree)
        ensures
            forall|p: Point, m: MathModel| #[trigger] eval(r, p, m) == self.sdf(p, m),
    {
        let (x, y, _z) = Tree::axes();
        let dx = x.sub(Tree::constant(self.center.x)).abs().sub(
            Tree::constant(self.half_size.x),
        );
        let dy = y.sub(Tree::constant(self.center.y)).abs().sub(
            Tree::constant(self.half_size.y),
        );
        let ox = dx.dup().max(Tree::constant(Scalar::zero()));
        let oy = dy.dup().max(Tree::constant(Scalar::zero()));
        let outside = ox.square().add(oy.square()).sqrt();
        let inside = dx.max(dy).min(Tree::constant(Scalar::zero()));
        outside.add(inside)
    }
}

/// 3D sphere
#[derive(Clone, Debug, PartialEq, Eq)]
pub struct Sphere {
    /// Center of the sphere (in XYZ)
    pub center: Vec3,
    /// Sphere radius
    pub radius: Scalar,
}

impl Sphere {
    /// The sphere's signed distance at a point:
    /// `sqrt(sum of squared coordinate offsets) - r`.
    pub open spec fn sdf(self, p: Point, m: MathModel) -> Ext {
        let dx = ext_sub(p.x, self.center.x@);
        let dy = ext_sub(p.y, self.center.y@);
        let dz = ext_sub(p.z, self.center.z@);
        ext_sub(
            (m.sqrt)(ext_add(ext_add(ext_mul(dx, dx), ext_mul(dy, dy)), ext_mul(dz, dz))),
            self.radius@,
        )
    }

    pub fn doc() -> (r: &'static str)
        ensures
            r@ == " 3D sphere"@,
    {
        " 3D sphere"
    }

    pub fn to_tree(self) -> (r: Tree)
        ensures
            forall|p: Point, m: MathModel| #[trigger] eval(r, p, m) == self.sdf(p, m),
    {
        let (x, y, z) = Tree::axes();
        let dx = x.sub(Tree::constant(self.center.x));
        let dy = y.sub(Tree::constant(self.center.y));
        let dz = z.sub(Tree::constant(self.center.z));
        dx.square().add(dy.square()).add(dz.square()).sqrt().sub(
            Tree::constant(self.radius),
        )
    }
}

/// Axis-aligned box
#[derive(Clone, Debug, PartialEq, Eq)]
pub struct Cuboid {
    /// Center of the box (in XYZ)
    pub center: Vec3,
    /// Half-size of the box on each axis
    pub half_size: Vec3,
}

impl Cuboid {
    /// The box's signed distance at a point: the rectangle composition
    /// extended over three axes.
    pub open spec fn sdf(self, p: Point, m: MathModel) -> Ext {
        let dx = ext_sub(ext_abs(ext_sub(p.x, self.center.x@)), self.half_size.x@);
        let dy = ext_sub(ext_abs(ext_sub(p.y, self.center.y@)), self.half_size.y@);
        let dz = ext_sub(ext_abs(ext_sub(p.z, self.center.z@)), self.half_size.z@);
        let ox = ext_max(dx, ext_zero());
        let oy = ext_max(dy, ext_zero());
        let oz = ext_max(dz, ext_zero());
        ext_add(
            (m.sqrt)(ext_add(ext_add(ext_mul(ox, ox), ext_mul(oy, oy)), ext_mul(oz, oz))),
            ext_min(ext_max(dx, ext_max(dy, dz)), ext_zero()),
        )
    }

    pub fn doc() -> (r: &'static str)
        ensures
            r@ == " Axis-aligned box"@,
    {
        " Axis-aligned box"
    }

    pub fn to_tree(self) -> (r: Tree)
        ensures
            forall|p: Point, m: MathModel| #[trigger] eval(r, p, m) == self.sdf(p, m),
    {
        let (x, y, z) = Tree::axes();
        let dx = x.sub(Tree::constant(self.center.x)).abs().sub(
            Tree::constant(self.half_size.x),
        );
        let dy = y.sub(Tree::constant(self.center.y)).abs().sub(
            Tree::constant(self.half_size.y),
        );
        let dz = z.sub(Tree::constant(self.center.z)).abs().sub(
            Tree::constant(self.half_size.z),
        );
        let ox = dx.dup().max(Tree::constant(Scalar::zero()));
        let oy = dy.dup().max(Tree::constant(Scalar::zero()));
        let oz = dz.dup().max(Tree::constant(Scalar::zero()));
        let outside = ox.square().add(oy.square()).add(oz.square()).sqrt();
        let inside = dx.max(dy.max(dz)).min(Tree::constant(Scalar::zero()));
        outside.add(inside)
    }
}

/// Finite cylinder aligned with the Y axis
#[derive(Clone, Debug, PartialEq, Eq)]
pub struct Cylinder {
    /// Center of the cylinder (in XYZ)
    pub center: Vec3,
    /// Cylinder radius
    pub radius: Scalar,
    /// Half-height of the cylinder
    pub half_height: Scalar,
}

impl Cylinder {
    /// The cylinder's signed distance at a point: the rectangle composition
    /// over radial and axial offsets.
    pub open spec fn sdf(self, p: Point, m: MathModel) -> Ext {
        let px = ext_sub(p.x, self.center.x@);
        let py = ext_sub(p.y, self.center.y@);
        let pz = ext_sub(p.z, self.center.z@);
        let dx = ext_sub((m.sqrt)(ext_add(ext_mul(px, px), ext_mul(pz, pz))), self.radius@);
        let dy = ext_sub(ext_abs(py), self.half_height@);
        let ox = ext_max(dx, ext_zero());
        let oy = ext_max(dy, ext_zero());
        ext_add(
            (m.sqrt)(ext_add(ext_mul(ox, ox), ext_mul(oy, oy))),
            ext_min(ext_max(dx, dy), ext_zero()),
        )
    }

    pub fn doc() -> (r: &'static str)
        ensures
            r@ == " Finite cylinder aligned with the Y axis"@,
    {
        " Finite cylinder aligned with the Y axis"
    }

    pub fn to_tree(self) -> (r: Tree)
        ensures
            forall|p: Point, m: MathModel| #[trigger] eval(r, p, m) == self.sdf(p, m),
    {
        let (x, y, z) = Tree::axes();
        let px = x.sub(Tree::constant(self.center.x));
        let py = y.sub(Tree::constant(self.center.y));
        let pz = z.sub(Tree::constant(self.center.z));
        let dx = px.square().add(pz.square()).sqrt().sub(Tree::constant(self.radius));
        let dy = py.abs().sub(Tree::constant(self.half_height));
        let ox = dx.dup().max(Tree::constant(Scalar::zero()));
        let oy = dy.dup().max(Tree::constant(Scalar::zero()));
        ox.square().add(oy.square()).sqrt().add(
            dx.max(dy).min(Tree::constant(Scalar::zero())),
        )
    }
}

/// Torus aligned with the Y axis
#[derive(Clone, Debug, PartialEq, Eq)]
pub struct Torus {
    /// Center of the torus (in XYZ)
    pub center: Vec3,
    /// Major radius of the torus
    pub major_radius: Scalar,
    /// Radius of the tube
    pub tube_radius: Scalar,
}

impl Torus {
    /// The torus's signed distance at a point:
    /// `sqrt((sqrt(px^2 + pz^2) - R)^2 + py^2) - r`.
    pub open spec fn sdf(self, p: Point, m: MathModel) -> Ext {
        let px = ext_sub(p.x, self.center.x@);
        let py = ext_sub(p.y, self.center.y@);
        let pz = ext_sub(p.z, self.center.z@);
        let ring = ext_sub(
            (m.sqrt)(ext_add(ext_mul(px, px), ext_mul(pz, pz))),
            self.major_radius@,
        );
        let q = ext_add(ext_mul(ring, ring), ext_mul(py, py));
        ext_sub((m.sqrt)(q), self.tube_radius@)
    }

    pub fn doc() -> (r: &'static str)
        ensures
            r@ == " Torus aligned with the Y axis"@,
    {
        " Torus aligned with the Y axis"
    }

    pub fn to_tree(self) -> (r: Tree)
        ensures
            forall|p: Point, m: MathModel| #[trigger] eval(r, p, m) == self.sdf(p, m),
    {
        let (x, y, z) = Tree::axes();
        let px = x.sub(Tree::constant(self.center.x));
        let py = y.sub(Tree::constant(self.center.y));
        let pz = z.sub(Tree::constant(self.center.z));
        let ring = px.square().add(pz.square()).sqrt().sub(
            Tree::constant(self.major_radius),
        );
        let q = ring.square().add(py.square());
        q.sqrt().sub(Tree::constant(self.tube_radius))
    }
}

/// The balanced pairwise reduction of a non-empty input sequence by `Min`
/// nodes: `t` is the reduction of `s`, with exactly `d` combine nodes above
/// the deepest input. The low half of a split holds `len / 2` inputs.
pub open spec fn balanced_min_of(t: Tree, s: Seq<Tree>, d: nat) -> bool
    decreases s.len(),
{
    if s.len() == 1 {
        t == s[0] && d == 0
    } else if s.len() >= 2 {
        let l = s.len() / 2;
        let dl = reduce_levels(l);
        let dr = reduce_levels((s.len() - l) as nat);
        match t {
            Tree::Min(a, b) => balanced_min_of(*a, s.take(l as int), dl)
                && balanced_min_of(*b, s.skip(l as int), dr) && d == 1 + (if dl >= dr {
                dl
            } else {
                dr
            }),
            _ => false,
        }
    } else {
        false
    }
}

/// The balanced pairwise reduction by `Max` nodes; the dual of
/// `balanced_min_of`.
pub open spec fn balanced_max_of(t: Tree, s: Seq<Tree>, d: nat) -> bool
    decreases s.len(),
{
    if s.len() == 1 {
        t == s[0] && d == 0
    } else if s.len() >= 2 {
        let l = s.len() / 2;
        let dl = reduce_levels(l);
        let dr = reduce_levels((s.len() - l) as nat);
        match t {
            Tree::Max(a, b) => balanced_max_of(*a, s.take(l as int), dl)
                && balanced_max_of(*b, s.skip(l as int), dr) && d == 1 + (if dl >= dr {
                dl
            } else {
                dr
            }),
            _ => false,
        }
    } else {
        false
    }
}

/// Reduces `s[lo..hi]` by balanced pairwise `min`, placing `ceil(log2 n)`
/// combine nodes over the `n` inputs.
fn reduce_min(s: &Vec<Tree>, lo: usize, hi: usize) -> (r: Tree)
    requires
        lo < hi,
        hi <= s.len(),
    ensures
        balanced_min_of(r, s@.subrange(lo as int, hi as int), reduce_levels((hi - lo) as nat)),
    decreases hi - lo,
{
    if hi - lo == 1 {
        let r = s[lo].clone();
        proof {
            let sub = s@.subrange(lo as int, hi as int);
            assert(sub.len() == 1);
            assert(sub[0] == s@[lo as int]);
        }
        r
    } else {
        let mid = lo + (hi - lo) / 2;
        let a = reduce_min(s, lo, mid);
        let b = reduce_min(s, mid, hi);
        let r = a.min(b);
        proof {
            let sub = s@.subrange(lo as int, hi as int);
            let l = sub.len() / 2;
            assert(sub.take(l as int) =~= s@.subrange(lo as int, mid as int));
            assert(sub.skip(l as int) =~= s@.subrange(mid as int, hi as int));
            assert(balanced_min_of(*r->Min_0, sub.take(l as int), reduce_levels(l)));
            assert(balanced_min_of(*r->Min_1, sub.skip(l as int), reduce_levels((sub.len() - l) as nat)));
            assert(balanced_min_of(r, sub, reduce_levels((hi - lo) as nat)));
        }
        r
    }
}

/// Reduces `s[lo..hi]` by balanced pairwise `max`; the dual of
/// `reduce_min`.
fn reduce_max(s: &Vec<Tree>, lo: usize, hi: usize) -> (r: Tree)
    requires
        lo < hi,
        hi <= s.len(),
    ensures
        balanced_max_of(r, s@.subrange(lo as int, hi as int), reduce_levels((hi - lo) as nat)),
    decreases hi - lo,
{
    if hi - lo == 1 {
        let r = s[lo].clone();
        proof {
            let sub = s@.subrange(lo as int, hi as int);
            assert(sub.len() == 1);
            assert(sub[0] == s@[lo as int]);
        }
        r
    } else {
        let mid = lo + (hi - lo) / 2;
        let a = reduce_max(s, lo, mid);
        let b = reduce_max(s, mid, hi);
        let r = a.max(b);
        proof {
            let sub = s@.subrange(lo as int, hi as int);
            let l = sub.len() / 2;
            assert(sub.take(l as int) =~= s@.subrange(lo as int, mid as int));
            assert(sub.skip(l as int) =~= s@.subrange(mid as int, hi as int));
            assert(balanced_max_of(*r->Max_0, sub.take(l as int), reduce_levels(l)));
            assert(balanced_max_of(*r->Max_1, sub.skip(l as int), reduce_levels((sub.len() - l) as nat)));
            assert(balanced_max_of(r, sub, reduce_levels((hi - lo) as nat)));
        }
        r
    }
}

/// Take the union of a set of shapes
///
/// If the input is empty, returns a constant empty tree (at positive
/// infinity), the identity element of `min`.
#[derive(Clone, Debug, PartialEq, Eq)]
pub struct Union {
    /// List of shapes to merge
    pub input: Vec<Tree>,
}

impl Union {
    pub fn doc() -> (r: &'static str)
        ensures
            r@ == " Take the union of a set of shapes"@,
    {
        " Take the union of a set of shapes"
    }

    pub fn to_tree(self) -> (r: Tree)
        ensures
            self.input@.len() == 0 ==> r == Tree::Constant(Scalar::PosInf),
            self.input@.len() == 0 ==> forall|p: Point, m: MathModel|
                #[trigger] eval(r, p, m) == Ext::PosInf,
            self.input@.len() >= 1 ==> balanced_min_of(
                r,
                self.input@,
                clog2(self.input@.len()),
            ),
            self.input@.len() == 1 ==> r == self.input@[0],
    {
        let n = self.input.len();
        if n == 0 {
            Tree::constant(Scalar::pos_inf())
        } else {
            let r = reduce_min(&self.input, 0, n);
            proof {
                assert(self.input@.subrange(0, n as int) =~= self.input@);
                lemma_reduce_levels(n as nat);
            }
            r
        }
    }
}

/// Take the intersection of a set of shapes
///
/// If the input is empty, returns a constant full tree (at negative
/// infinity), the identity element of `max`.
#[derive(Clone, Debug, PartialEq, Eq)]
pub struct Intersection {
    /// List of shapes to intersect
    pub input: Vec<Tree>,
}

impl Intersection {
    pub fn doc() -> (r: &'static str)
        ensures
            r@ == " Take the intersection of a set of shapes"@,
    {
        " Take the intersection of a set of shapes"
    }

    pub fn to_tree(self) -> (r: Tree)
        ensures
            self.input@.len() == 0 ==> r == Tree::Constant(Scalar::NegInf),
            self.input@.len() == 0 ==> forall|p: Point, m: MathModel|
                #[trigger] eval(r, p, m) == Ext::NegInf,
            self.input@.len() >= 1 ==> balanced_max_of(
                r,
                self.input@,
                clog2(self.input@.len()),
            ),
            self.input@.len() == 1 ==> r == self.input@[0],
    {
        let n = self.input.len();
        if n == 0 {
            Tree::constant(Scalar::neg_inf())
        } else {
            let r = reduce_max(&self.input, 0, n);
            proof {
                assert(self.input@.subrange(0, n as int) =~= self.input@);
                lemma_reduce_levels(n as nat);
            }
            r
        }
    }
}

/// Computes the inverse of a shape
#[derive(Clone, Debug, PartialEq, Eq)]
pub struct Inverse {
    /// Shape to invert
    pub shape: Tree,
}

impl Inverse {
    pub fn doc() -> (r: &'static str)
        ensures
            r@ == " Computes the inverse of a shape"@,
    {
        " Computes the inverse of a shape"
    }

    /// The result evaluates to the negated field of the shape everywhere.
    pub fn to_tree(self) -> (r: Tree)
        ensures
            (r matches Tree::Neg(a) && *a == self.shape),
            forall|p: Point, m: MathModel| #[trigger] eval(r, p, m) == ext_neg(
                eval(self.shape, p, m),
            ),
    {
        self.shape.neg()
    }
}

/// Take the difference of two shapes
#[derive(Clone, Debug, PartialEq, Eq)]
pub struct Difference {
    /// Original shape
    pub shape: Tree,
    /// Shape to be subtracted from the original
    pub cutout: Tree,
}

impl Difference {
    pub fn doc() -> (r: &'static str)
        ensures
            r@ == " Take the difference of two shapes"@,
    {
        " Take the difference of two shapes"
    }

    /// The result evaluates to `max(shape, -cutout)` everywhere.
    pub fn to_tree(self) -> (r: Tree)
        ensures
            forall|p: Point, m: MathModel| #[trigger] eval(r, p, m) == ext_max(
                eval(self.shape, p, m),
                ext_neg(eval(self.cutout, p, m)),
            ),
    {
        self.shape.max(self.cutout.neg())
    }
}

/// Uniformly round (or offset) a shape
#[derive(Clone, Debug, PartialEq, Eq)]
pub struct Round {
    /// Shape to round
    pub shape: Tree,
    /// Amount to round the surface
    pub radius: Scalar,
}

impl Round {
    pub fn doc() -> (r: &'static str)
        ensures
            r@ == " Uniformly round (or offset) a shape"@,
    {
        " Uniformly round (or offset) a shape"
    }

    /// The result evaluates to the shape's field lowered by the offset:
    /// a positive offset inflates the zero set outward.
    pub fn to_tree(self) -> (r: Tree)
        ensures
            forall|p: Point, m: MathModel| #[trigger] eval(r, p, m) == ext_sub(
                eval(self.shape, p, m),
                self.radius@,
            ),
    {
        self.shape.sub(Tree::constant(self.radius))
    }
}

/// Form a shell of constant thickness around a shape
#[derive(Clone, Debug, PartialEq, Eq)]
pub struct Onion {
    /// Base shape to offset
    pub shape: Tree,
    /// Thickness of the shell
    pub thickness: Scalar,
}

impl Onion {
    pub fn doc() -> (r: &'static str)
        ensures
            r@ == " Form a shell of constant thickness around a shape"@,
    {
        " Form a shell of constant thickness around a shape"
    }

    /// The result evaluates to `|shape| - thickness` everywhere.
    pub fn to_tree(self) -> (r: Tree)
        ensures
            forall|p: Point, m: MathModel| #[trigger] eval(r, p, m) == ext_sub(
                ext_abs(eval(self.shape, p, m)),
                self.thickness@,
            ),
    {
        self.shape.abs().sub(Tree::constant(self.thickness))
    }
}

/// Repeat a shape with the given periodicity
///
/// A zero cell component gives a zero-period substitution whose value is
/// left to the algebra's modulo.
#[derive(Clone, Debug, PartialEq, Eq)]
pub struct Repeat {
    /// Shape to repeat
    pub shape: Tree,
    /// Spacing of the repeating cell
    pub cell: Vec3,
}

impl Repeat {
    pub fn doc() -> (r: &'static str)
        ensures
            r@ == " Repeat a shape with the given periodicity"@,
    {
        " Repeat a shape with the given periodicity"
    }

    /// The result evaluates as the shape does at coordinates folded into
    /// the cell centered on the origin. Halving the cell must stay within
    /// the machine range of the scalar's denominator.
    pub fn to_tree(self) -> (r: Tree)
        requires
            self.cell.x.can_halve(),
            self.cell.y.can_halve(),
            self.cell.z.can_halve(),
        ensures
            forall|p: Point, m: MathModel| #[trigger] eval(r, p, m) == eval(
                self.shape,
                (Point {
                    x: repeat_coord(m, p.x, self.cell.x@),
                    y: repeat_coord(m, p.y, self.cell.y@),
                    z: repeat_coord(m, p.z, self.cell.z@),
                }),
                m,
            ),
    {
        let (x, y, z) = Tree::axes();
        let hx = self.cell.x.halve();
        let hy = self.cell.y.halve();
        let hz = self.cell.z.halve();
        let px = x.add(Tree::constant(hx)).modulo(self.cell.x).sub(Tree::constant(hx));
        let py = y.add(Tree::constant(hy)).modulo(self.cell.y).sub(Tree::constant(hy));
        let pz = z.add(Tree::constant(hz)).modulo(self.cell.z).sub(Tree::constant(hz));
        self.shape.remap_xyz(px, py, pz)
    }
}

/// The twisted X coordinate: `x cos(y k) - z sin(y k)`.
pub open spec fn twist_x(m: MathModel, p: Point, k: Ext) -> Ext {
    ext_sub(
        ext_mul(p.x, (m.cos)(ext_mul(p.y, k))),
        ext_mul(p.z, (m.sin)(ext_mul(p.y, k))),
    )
}

/// The twisted Z coordinate: `x sin(y k) + z cos(y k)`.
pub open spec fn twist_z(m: MathModel, p: Point, k: Ext) -> Ext {
    ext_add(
        ext_mul(p.x, (m.sin)(ext_mul(p.y, k))),
        ext_mul(p.z, (m.cos)(ext_mul(p.y, k))),
    )
}

/// Twist a shape around the Y axis
#[derive(Clone, Debug, PartialEq, Eq)]
pub struct Twist {
    /// Shape to twist
    pub shape: Tree,
    /// Twist factor (angle per unit height)
    pub k: Scalar,
}

impl Twist {
    pub fn doc() -> (r: &'static str)
        ensures
            r@ == " Twist a shape around the Y axis"@,
    {
        " Twist a shape around the Y axis"
    }

    /// The result evaluates as the shape does at each horizontal slice
    /// rotated about the Y axis by the slice's height times `k`. The
    /// pulled-back field is no longer a true distance field.
    pub fn to_tree(self) -> (r: Tree)
        ensures
            forall|p: Point, m: MathModel| #[trigger] eval(r, p, m) == eval(
                self.shape,
                (Point {
                    x: twist_x(m, p, self.k@),
                    y: p.y,
                    z: twist_z(m, p, self.k@),
                }),
                m,
            ),
    {
        let (x, y, z) = Tree::axes();
        let angle = y.dup().mul(Tree::constant(self.k));
        let sin_a = angle.dup().sin();
        let cos_a = angle.cos();
        let rx = x.dup().mul(cos_a.dup()).sub(z.dup().mul(sin_a.dup()));
        let rz = x.mul(sin_a).add(z.mul(cos_a));
        self.shape.remap_xyz(rx, y, rz)
    }
}

/// Move a shape
#[derive(Clone, Debug, PartialEq, Eq)]
pub struct Move {
    /// Shape to move
    pub shape: Tree,
    /// Position offset
    pub offset: Vec3,
}

impl Move {
    pub fn doc() -> (r: &'static str)
        ensures
            r@ == " Move a shape"@,
    {
        " Move a shape"
    }

    /// Substitutes the inverse translation into the coordinates, so the
    /// shape appears translated by the offset in world space.
    pub fn to_tree(self) -> (r: Tree)
        requires
            self.offset.x.can_neg(),
            self.offset.y.can_neg(),
            self.offset.z.can_neg(),
        ensures
            forall|p: Point, m: MathModel| #[trigger] eval(r, p, m) == eval(
                self.shape,
                (Point {
                    x: affine_coord(
                        ext_one(),
                        ext_zero(),
                        ext_zero(),
                        ext_neg(self.offset.x@),
                        p,
                    ),
                    y: affine_coord(
                        ext_zero(),
                        ext_one(),
                        ext_zero(),
                        ext_neg(self.offset.y@),
                        p,
                    ),
                    z: affine_coord(
                        ext_zero(),
                        ext_zero(),
                        ext_one(),
                        ext_neg(self.offset.z@),
                        p,
                    ),
                }),
                m,
            ),
    {
        let mat = Affine::translation(
            self.offset.x.neg(),
            self.offset.y.neg(),
            self.offset.z.neg(),
        );
        self.shape.remap_affine(mat)
    }
}

/// Non-uniform scaling
#[derive(Clone, Debug, PartialEq, Eq)]
pub struct Scale {
    /// Shape to scale
    pub shape: Tree,
    /// Scale to apply on each axis
    pub scale: Vec3,
}

impl Scale {
    pub fn doc() -> (r: &'static str)
        ensures
            r@ == " Non-uniform scaling"@,
    {
        " Non-uniform scaling"
    }

    /// Substitutes componentwise division by the scale into the
    /// coordinates; a zero component divides by zero exactly as the
    /// reciprocal defines it. Non-uniform scaling does not preserve
    /// Euclidean distance, only the zero set's image.
    pub fn to_tree(self) -> (r: Tree)
        requires
            self.scale.x.can_recip(),
            self.scale.y.can_recip(),
            self.scale.z.can_recip(),
        ensures
            forall|p: Point, m: MathModel| #[trigger] eval(r, p, m) == eval(
                self.shape,
                (Point {
                    x: affine_coord(
                        ext_recip(self.scale.x@),
                        ext_zero(),
                        ext_zero(),
                        ext_zero(),
                        p,
                    ),
                    y: affine_coord(
                        ext_zero(),
                        ext_recip(self.scale.y@),
                        ext_zero(),
                        ext_zero(),
                        p,
                    ),
                    z: affine_coord(
                        ext_zero(),
                        ext_zero(),
                        ext_recip(self.scale.z@),
                        ext_zero(),
                        p,
                    ),
                }),
                m,
            ),
    {
        let mat = Affine::scaling(
            self.scale.x.recip(),
            self.scale.y.recip(),
            self.scale.z.recip(),
        );
        self.shape.remap_affine(mat)
    }
}

} // verus!
