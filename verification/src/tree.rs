//! Symbolic expression trees over the three free coordinates X, Y and Z,
//! together with their evaluation semantics. Every constructor states what
//! the built node evaluates to at an arbitrary point, under an arbitrary
//! model of the irrational operations.

use vstd::prelude::*;

use crate::scalar::Scalar;
use crate::semantics::Ext;
use crate::semantics::MathModel;
use crate::semantics::Point;
use crate::semantics::affine_coord;
use crate::semantics::ext_abs;
use crate::semantics::ext_add;
use crate::semantics::ext_div;
use crate::semantics::ext_max;
use crate::semantics::ext_min;
use crate::semantics::ext_mul;
use crate::semantics::ext_neg;
use crate::semantics::ext_sub;

verus! {

/// A symbolic expression over the free coordinates X, Y and Z.
#[derive(Debug, PartialEq, Eq)]
pub enum Tree {
    X,
    Y,
    Z,
    Constant(Scalar),
    Neg(Box<Tree>),
    Add(Box<Tree>, Box<Tree>),
    Sub(Box<Tree>, Box<Tree>),
    Mul(Box<Tree>, Box<Tree>),
    Div(Box<Tree>, Box<Tree>),
    Min(Box<Tree>, Box<Tree>),
    Max(Box<Tree>, Box<Tree>),
    Abs(Box<Tree>),
    Square(Box<Tree>),
    Sqrt(Box<Tree>),
    Sin(Box<Tree>),
    Cos(Box<Tree>),
    Modulo(Box<Tree>, Scalar),
}

/// The value of a tree at a point, under a model of the irrational
/// operations.
pub open spec fn eval(t: Tree, p: Point, m: MathModel) -> Ext
    decreases t,
{
    match t {
        Tree::X => p.x,
        Tree::Y => p.y,
        Tree::Z => p.z,
        Tree::Constant(s) => s@,
        Tree::Neg(a) => ext_neg(eval(*a, p, m)),
        Tree::Add(a, b) => ext_add(eval(*a, p, m), eval(*b, p, m)),
        Tree::Sub(a, b) => ext_sub(eval(*a, p, m), eval(*b, p, m)),
        Tree::Mul(a, b) => ext_mul(eval(*a, p, m), eval(*b, p, m)),
        Tree::Div(a, b) => ext_div(eval(*a, p, m), eval(*b, p, m)),
        Tree::Min(a, b) => ext_min(eval(*a, p, m), eval(*b, p, m)),
        Tree::Max(a, b) => ext_max(eval(*a, p, m), eval(*b, p, m)),
        Tree::Abs(a) => ext_abs(eval(*a, p, m)),
        Tree::Square(a) => ext_mul(eval(*a, p, m), eval(*a, p, m)),
        Tree::Sqrt(a) => (m.sqrt)(eval(*a, p, m)),
        Tree::Sin(a) => (m.sin)(eval(*a, p, m)),
        Tree::Cos(a) => (m.cos)(eval(*a, p, m)),
        Tree::Modulo(a, s) => (m.modulo)(eval(*a, p, m), s@),
    }
}

impl Tree {
    /// The three free coordinate trees.
    pub fn axes() -> (r: (Tree, Tree, Tree))
        ensures
            r.0 == Tree::X,
            r.1 == Tree::Y,
            r.2 == Tree::Z,
            forall|p: Point, m: MathModel| #[trigger] eval(r.0, p, m) == p.x,
            forall|p: Point, m: MathModel| #[trigger] eval(r.1, p, m) == p.y,
            forall|p: Point, m: MathModel| #[trigger] eval(r.2, p, m) == p.z,
    {
        (Tree::X, Tree::Y, Tree::Z)
    }

    /// Lifts a scalar into a constant tree.
    pub fn constant(s: Scalar) -> (r: Tree)
        ensures
            r == Tree::Constant(s),
            forall|p: Point, m: MathModel| #[trigger] eval(r, p, m) == s@,
    {
        Tree::Constant(s)
    }

    pub fn neg(self) -> (r: Tree)
        ensures
            (r matches Tree::Neg(a) && *a == self),
            forall|p: Point, m: MathModel| #[trigger] eval(r, p, m) == ext_neg(
                eval(self, p, m),
            ),
    {
        Tree::Neg(Box::new(self))
    }

    pub fn add(self, other: Tree) -> (r: Tree)
        ensures
            (r matches Tree::Add(a, b) && *a == self && *b == other),
            forall|p: Point, m: MathModel| #[trigger] eval(r, p, m) == ext_add(
                eval(self, p, m),
                eval(other, p, m),
            ),
    {
        Tree::Add(Box::new(self), Box::new(other))
    }

    pub fn sub(self, other: Tree) -> (r: Tree)
        ensures
            (r matches Tree::Sub(a, b) && *a == self && *b == other),
            forall|p: Point, m: MathModel| #[trigger] eval(r, p, m) == ext_sub(
                eval(self, p, m),
                eval(other, p, m),
            ),
    {
        Tree::Sub(Box::new(self), Box::new(other))
    }

    pub fn mul(self, other: Tree) -> (r: Tree)
        ensures
            (r matches Tree::Mul(a, b) && *a == self && *b == other),
            forall|p: Point, m: MathModel| #[trigger] eval(r, p, m) == ext_mul(
                eval(self, p, m),
                eval(other, p, m),
            ),
    {
        Tree::Mul(Box::new(self), Box::new(other))
    }

    pub fn div(self, other: Tree) -> (r: Tree)
        ensures
            (r matches Tree::Div(a, b) && *a == self && *b == other),
            forall|p: Point, m: MathModel| #[trigger] eval(r, p, m) == ext_div(
                eval(self, p, m),
                eval(other, p, m),
            ),
    {
        Tree::Div(Box::new(self), Box::new(other))
    }

    pub fn min(self, other: Tree) -> (r: Tree)
        ensures
            (r matches Tree::Min(a, b) && *a == self && *b == other),
            forall|p: Point, m: MathModel| #[trigger] eval(r, p, m) == ext_min(
                eval(self, p, m),
                eval(other, p, m),
            ),
    {
        Tree::Min(Box::new(self), Box::new(other))
    }

    pub fn max(self, other: Tree) -> (r: Tree)
        ensures
            (r matches Tree::Max(a, b) && *a == self && *b == other),
            forall|p: Point, m: MathModel| #[trigger] eval(r, p, m) == ext_max(
                eval(self, p, m),
                eval(other, p, m),
            ),
    {
        Tree::Max(Box::new(self), Box::new(other))
    }

    pub fn abs(self) -> (r: Tree)
        ensures
            (r matches Tree::Abs(a) && *a == self),
            forall|p: Point, m: MathModel| #[trigger] eval(r, p, m) == ext_abs(
                eval(self, p, m),
            ),
    {
        Tree::Abs(Box::new(self))
    }

    pub fn square(self) -> (r: Tree)
        ensures
            (r matches Tree::Square(a) && *a == self),
            forall|p: Point, m: MathModel| #[trigger] eval(r, p, m) == ext_mul(
                eval(self, p, m),
                eval(self, p, m),
            ),
    {
        Tree::Square(Box::new(self))
    }

    pub fn sqrt(self) -> (r: Tree)
        ensures
            (r matches Tree::Sqrt(a) && *a == self),
            forall|p: Point, m: MathModel| #[trigger] eval(r, p, m) == (m.sqrt)(
                eval(self, p, m),
            ),
    {
        Tree::Sqrt(Box::new(self))
    }

    pub fn sin(self) -> (r: Tree)
        ensures
            (r matches Tree::Sin(a) && *a == self),
            forall|p: Point, m: MathModel| #[trigger] eval(r, p, m) == (m.sin)(
                eval(self, p, m),
            ),
    {
        Tree::Sin(Box::new(self))
    }

    pub fn cos(self) -> (r: Tree)
        ensures
            (r matches Tree::Cos(a) && *a == self),
            forall|p: Point, m: MathModel| #[trigger] eval(r, p, m) == (m.cos)(
                eval(self, p, m),
            ),
    {
        Tree::Cos(Box::new(self))
    }

    pub fn modulo(self, period: Scalar) -> (r: Tree)
        ensures
            (r matches Tree::Modulo(a, s) && *a == self && s == period),
            forall|p: Point, m: MathModel| #[trigger] eval(r, p, m) == (m.modulo)(
                eval(self, p, m),
                period@,
            ),
    {
        Tree::Modulo(Box::new(self), period)
    }

    /// An exact structural copy.
    pub fn dup(&self) -> (r: Tree)
        ensures
            r == *self,
        decreases self,
    {
        match self {
            Tree::X => Tree::X,
            Tree::Y => Tree::Y,
            Tree::Z => Tree::Z,
            Tree::Constant(s) => Tree::Constant(*s),
            Tree::Neg(a) => Tree::Neg(Box::new(a.dup())),
            Tree::Add(a, b) => Tree::Add(Box::new(a.dup()), Box::new(b.dup())),
            Tree::Sub(a, b) => Tree::Sub(Box::new(a.dup()), Box::new(b.dup())),
            Tree::Mul(a, b) => Tree::Mul(Box::new(a.dup()), Box::new(b.dup())),
            Tree::Div(a, b) => Tree::Div(Box::new(a.dup()), Box::new(b.dup())),
            Tree::Min(a, b) => Tree::Min(Box::new(a.dup()), Box::new(b.dup())),
            Tree::Max(a, b) => Tree::Max(Box::new(a.dup()), Box::new(b.dup())),
            Tree::Abs(a) => Tree::Abs(Box::new(a.dup())),
            Tree::Square(a) => Tree::Square(Box::new(a.dup())),
            Tree::Sqrt(a) => Tree::Sqrt(Box::new(a.dup())),
            Tree::Sin(a) => Tree::Sin(Box::new(a.dup())),
            Tree::Cos(a) => Tree::Cos(Box::new(a.dup())),
            Tree::Modulo(a, s) => Tree::Modulo(Box::new(a.dup()), *s),
        }
    }

    /// Substitutes the given trees for X, Y and Z: the result evaluates as
    /// this tree does at the substituted coordinates.
    pub fn remap_xyz(self, x: Tree, y: Tree, z: Tree) -> (r: Tree)
        ensures
            forall|p: Point, m: MathModel| #[trigger] eval(r, p, m) == eval(
                self,
                (Point { x: eval(x, p, m), y: eval(y, p, m), z: eval(z, p, m) }),
                m,
            ),
    {
        self.remap_with(&x, &y, &z)
    }

    fn remap_with(&self, tx: &Tree, ty: &Tree, tz: &Tree) -> (r: Tree)
        ensures
            forall|p: Point, m: MathModel| #[trigger] eval(r, p, m) == eval(
                *self,
                (Point { x: eval(*tx, p, m), y: eval(*ty, p, m), z: eval(*tz, p, m) }),
                m,
            ),
        decreases self,
    {
        match self {
            Tree::X => tx.dup(),
            Tree::Y => ty.dup(),
            Tree::Z => tz.dup(),
            Tree::Constant(s) => Tree::Constant(*s),
            Tree::Neg(a) => a.remap_with(tx, ty, tz).neg(),
            Tree::Add(a, b) => a.remap_with(tx, ty, tz).add(b.remap_with(tx, ty, tz)),
            Tree::Sub(a, b) => a.remap_with(tx, ty, tz).sub(b.remap_with(tx, ty, tz)),
            Tree::Mul(a, b) => a.remap_with(tx, ty, tz).mul(b.remap_with(tx, ty, tz)),
            Tree::Div(a, b) => a.remap_with(tx, ty, tz).div(b.remap_with(tx, ty, tz)),
            Tree::Min(a, b) => a.remap_with(tx, ty, tz).min(b.remap_with(tx, ty, tz)),
            Tree::Max(a, b) => a.remap_with(tx, ty, tz).max(b.remap_with(tx, ty, tz)),
            Tree::Abs(a) => a.remap_with(tx, ty, tz).abs(),
            Tree::Square(a) => a.remap_with(tx, ty, tz).square(),
            Tree::Sqrt(a) => a.remap_with(tx, ty, tz).sqrt(),
            Tree::Sin(a) => a.remap_with(tx, ty, tz).sin(),
            Tree::Cos(a) => a.remap_with(tx, ty, tz).cos(),
            Tree::Modulo(a, s) => a.remap_with(tx, ty, tz).modulo(*s),
        }
    }

    /// Substitutes the image of (X, Y, Z) under the given homogeneous
    /// transform for the coordinates.
    pub fn remap_affine(self, mat: Affine) -> (r: Tree)
        ensures
            forall|p: Point, m: MathModel| #[trigger] eval(r, p, m) == eval(
                self,
                (Point {
                    x: affine_coord(mat.xx@, mat.xy@, mat.xz@, mat.xw@, p),
                    y: affine_coord(mat.yx@, mat.yy@, mat.yz@, mat.yw@, p),
                    z: affine_coord(mat.zx@, mat.zy@, mat.zz@, mat.zw@, p),
                }),
                m,
            ),
    {
        let rx = affine_row(mat.xx, mat.xy, mat.xz, mat.xw);
        let ry = affine_row(mat.yx, mat.yy, mat.yz, mat.yw);
        let rz = affine_row(mat.zx, mat.zy, mat.zz, mat.zw);
        self.remap_xyz(rx, ry, rz)
    }
}

impl Clone for Tree {
    fn clone(&self) -> (r: Self)
        ensures
            r == *self,
    {
        self.dup()
    }
}

/// A homogeneous affine transform of the coordinates: a linear part of three
/// rows and a translation column (`xw`, `yw`, `zw`).
#[derive(Clone, Copy, Debug, PartialEq, Eq, Structural)]
pub struct Affine {
    pub xx: Scalar,
    pub xy: Scalar,
    pub xz: Scalar,
    pub xw: Scalar,
    pub yx: Scalar,
    pub yy: Scalar,
    pub yz: Scalar,
    pub yw: Scalar,
    pub zx: Scalar,
    pub zy: Scalar,
    pub zz: Scalar,
    pub zw: Scalar,
}

impl Affine {
    /// The translation by `(tx, ty, tz)`.
    pub fn translation(tx: Scalar, ty: Scalar, tz: Scalar) -> (r: Affine)
        ensures
            r.xx@ == crate::semantics::ext_one(),
            r.xy@ == crate::semantics::ext_zero(),
            r.xz@ == crate::semantics::ext_zero(),
            r.xw == tx,
            r.yx@ == crate::semantics::ext_zero(),
            r.yy@ == crate::semantics::ext_one(),
            r.yz@ == crate::semantics::ext_zero(),
            r.yw == ty,
            r.zx@ == crate::semantics::ext_zero(),
            r.zy@ == crate::semantics::ext_zero(),
            r.zz@ == crate::semantics::ext_one(),
            r.zw == tz,
    {
        Affine {
            xx: Scalar::one(),
            xy: Scalar::zero(),
            xz: Scalar::zero(),
            xw: tx,
            yx: Scalar::zero(),
            yy: Scalar::one(),
            yz: Scalar::zero(),
            yw: ty,
            zx: Scalar::zero(),
            zy: Scalar::zero(),
            zz: Scalar::one(),
            zw: tz,
        }
    }

    /// The diagonal scaling by `(sx, sy, sz)`.
    pub fn scaling(sx: Scalar, sy: Scalar, sz: Scalar) -> (r: Affine)
        ensures
            r.xx == sx,
            r.xy@ == crate::semantics::ext_zero(),
            r.xz@ == crate::semantics::ext_zero(),
            r.xw@ == crate::semantics::ext_zero(),
            r.yx@ == crate::semantics::ext_zero(),
            r.yy == sy,
            r.yz@ == crate::semantics::ext_zero(),
            r.yw@ == crate::semantics::ext_zero(),
            r.zx@ == crate::semantics::ext_zero(),
            r.zy@ == crate::semantics::ext_zero(),
            r.zz == sz,
            r.zw@ == crate::semantics::ext_zero(),
    {
        Affine {
            xx: sx,
            xy: Scalar::zero(),
            xz: Scalar::zero(),
            xw: Scalar::zero(),
            yx: Scalar::zero(),
            yy: sy,
            yz: Scalar::zero(),
            yw: Scalar::zero(),
            zx: Scalar::zero(),
            zy: Scalar::zero(),
            zz: sz,
            zw: Scalar::zero(),
        }
    }
}

/// One coordinate row of an affine substitution, as a tree:
/// `a*X + b*Y + c*Z + d`.
fn affine_row(a: Scalar, b: Scalar, c: Scalar, d: Scalar) -> (r: Tree)
    ensures
        forall|p: Point, m: MathModel| #[trigger] eval(r, p, m) == affine_coord(
            a@,
            b@,
            c@,
            d@,
            p,
        ),
{
    Tree::constant(a).mul(Tree::X).add(Tree::constant(b).mul(Tree::Y)).add(
        Tree::constant(c).mul(Tree::Z),
    ).add(Tree::constant(d))
}

} // verus!
