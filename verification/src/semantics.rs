//! The value domain in which expression trees are evaluated: exact rationals
//! extended with the two infinities and an undefined value, plus an abstract
//! model of the operations whose exact values this library does not fix
//! (square root, sine, cosine, modulo). Every law proved against `eval`
//! holds for every such model.

use vstd::prelude::*;

verus! {

/// A rational number `num / den`; well-formed when `den > 0`.
pub struct Rat {
    pub num: int,
    pub den: int,
}

/// Extended evaluation values: finite rationals, the two infinities, and an
/// undefined value standing for results outside the domain (for example the
/// sum of opposite infinities).
pub enum Ext {
    Fin(Rat),
    PosInf,
    NegInf,
    Undef,
}

/// An evaluation point: a value for each of the three free coordinates.
pub struct Point {
    pub x: Ext,
    pub y: Ext,
    pub z: Ext,
}

/// An interpretation of the operations left abstract by the algebra: any
/// model of square root, sine, cosine and modulo.
pub struct MathModel {
    pub sqrt: spec_fn(Ext) -> Ext,
    pub sin: spec_fn(Ext) -> Ext,
    pub cos: spec_fn(Ext) -> Ext,
    pub modulo: spec_fn(Ext, Ext) -> Ext,
}

/// A finite value is well-formed when its denominator is positive.
pub open spec fn ext_wf(v: Ext) -> bool {
    match v {
        Ext::Fin(r) => r.den > 0,
        _ => true,
    }
}

pub open spec fn ext_finite(v: Ext) -> bool {
    v matches Ext::Fin(_)
}

/// Equality of values: finite values compare as rationals by cross
/// multiplication, other values by variant.
pub open spec fn rat_eq(a: Rat, b: Rat) -> bool {
    a.num * b.den == b.num * a.den
}

pub open spec fn ext_eq(a: Ext, b: Ext) -> bool {
    match (a, b) {
        (Ext::Fin(ra), Ext::Fin(rb)) => rat_eq(ra, rb),
        _ => a == b,
    }
}

pub open spec fn ext_is_zero(v: Ext) -> bool {
    match v {
        Ext::Fin(r) => r.num == 0,
        _ => false,
    }
}

pub open spec fn ext_neg(v: Ext) -> Ext {
    match v {
        Ext::Fin(r) => Ext::Fin(Rat { num: -r.num, den: r.den }),
        Ext::PosInf => Ext::NegInf,
        Ext::NegInf => Ext::PosInf,
        Ext::Undef => Ext::Undef,
    }
}

pub open spec fn ext_add(a: Ext, b: Ext) -> Ext {
    match (a, b) {
        (Ext::Undef, _) => Ext::Undef,
        (_, Ext::Undef) => Ext::Undef,
        (Ext::PosInf, Ext::NegInf) => Ext::Undef,
        (Ext::NegInf, Ext::PosInf) => Ext::Undef,
        (Ext::PosInf, _) => Ext::PosInf,
        (_, Ext::PosInf) => Ext::PosInf,
        (Ext::NegInf, _) => Ext::NegInf,
        (_, Ext::NegInf) => Ext::NegInf,
        (Ext::Fin(ra), Ext::Fin(rb)) => Ext::Fin(
            Rat { num: ra.num * rb.den + rb.num * ra.den, den: ra.den * rb.den },
        ),
    }
}

pub open spec fn ext_sub(a: Ext, b: Ext) -> Ext {
    ext_add(a, ext_neg(b))
}

/// The sign of a value: -1, 0 or 1 (0 for the undefined value).
pub open spec fn ext_sign(v: Ext) -> int {
    match v {
        Ext::Fin(r) => if r.num > 0 { 1 } else if r.num < 0 { -1int } else { 0 },
        Ext::PosInf => 1,
        Ext::NegInf => -1int,
        Ext::Undef => 0,
    }
}

pub open spec fn ext_mul(a: Ext, b: Ext) -> Ext {
    match (a, b) {
        (Ext::Undef, _) => Ext::Undef,
        (_, Ext::Undef) => Ext::Undef,
        (Ext::Fin(ra), Ext::Fin(rb)) => Ext::Fin(
            Rat { num: ra.num * rb.num, den: ra.den * rb.den },
        ),
        _ => if ext_sign(a) == 0 || ext_sign(b) == 0 {
            Ext::Undef
        } else if ext_sign(a) == ext_sign(b) {
            Ext::PosInf
        } else {
            Ext::NegInf
        },
    }
}

pub open spec fn ext_div(a: Ext, b: Ext) -> Ext {
    match (a, b) {
        (Ext::Undef, _) => Ext::Undef,
        (_, Ext::Undef) => Ext::Undef,
        (Ext::Fin(ra), Ext::Fin(rb)) => if rb.num == 0 {
            if ra.num == 0 {
                Ext::Undef
            } else if ra.num > 0 {
                Ext::PosInf
            } else {
                Ext::NegInf
            }
        } else if rb.num > 0 {
            Ext::Fin(Rat { num: ra.num * rb.den, den: ra.den * rb.num })
        } else {
            Ext::Fin(Rat { num: -(ra.num * rb.den), den: -(ra.den * rb.num) })
        },
        (Ext::Fin(_), _) => Ext::Fin(Rat { num: 0, den: 1 }),
        (Ext::PosInf, Ext::Fin(rb)) => if rb.num >= 0 { Ext::PosInf } else { Ext::NegInf },
        (Ext::NegInf, Ext::Fin(rb)) => if rb.num >= 0 { Ext::NegInf } else { Ext::PosInf },
        _ => Ext::Undef,
    }
}

/// Order on defined values; meaningful for well-formed operands.
pub open spec fn rat_le(a: Rat, b: Rat) -> bool {
    a.num * b.den <= b.num * a.den
}

pub open spec fn ext_le(a: Ext, b: Ext) -> bool {
    match (a, b) {
        (Ext::Fin(ra), Ext::Fin(rb)) => rat_le(ra, rb),
        (Ext::NegInf, _) => true,
        (_, Ext::PosInf) => true,
        _ => false,
    }
}

/// The lattice operations propagate the undefined value.
pub open spec fn ext_min(a: Ext, b: Ext) -> Ext {
    if (a matches Ext::Undef) || (b matches Ext::Undef) {
        Ext::Undef
    } else if ext_le(a, b) {
        a
    } else {
        b
    }
}

pub open spec fn ext_max(a: Ext, b: Ext) -> Ext {
    if (a matches Ext::Undef) || (b matches Ext::Undef) {
        Ext::Undef
    } else if ext_le(a, b) {
        b
    } else {
        a
    }
}

pub open spec fn ext_abs(v: Ext) -> Ext {
    match v {
        Ext::Fin(r) => Ext::Fin(Rat { num: if r.num >= 0 { r.num } else { -r.num }, den: r.den }),
        Ext::PosInf => Ext::PosInf,
        Ext::NegInf => Ext::PosInf,
        Ext::Undef => Ext::Undef,
    }
}

/// The exact reciprocal; the reciprocal of zero is positive infinity and the
/// reciprocal of either infinity is zero.
pub open spec fn ext_recip(v: Ext) -> Ext {
    match v {
        Ext::Fin(r) => if r.num == 0 {
            Ext::PosInf
        } else if r.num > 0 {
            Ext::Fin(Rat { num: r.den, den: r.num })
        } else {
            Ext::Fin(Rat { num: -r.den, den: -r.num })
        },
        Ext::PosInf => Ext::Fin(Rat { num: 0, den: 1 }),
        Ext::NegInf => Ext::Fin(Rat { num: 0, den: 1 }),
        Ext::Undef => Ext::Undef,
    }
}

/// Exact halving: doubles the denominator of a finite value.
pub open spec fn ext_half(v: Ext) -> Ext {
    match v {
        Ext::Fin(r) => Ext::Fin(Rat { num: r.num, den: 2 * r.den }),
        _ => v,
    }
}

pub open spec fn ext_one() -> Ext {
    Ext::Fin(Rat { num: 1, den: 1 })
}

pub open spec fn ext_zero() -> Ext {
    Ext::Fin(Rat { num: 0, den: 1 })
}

/// The image of one coordinate under an affine substitution with linear row
/// `(a, b, c)` and translation `d`.
pub open spec fn affine_coord(a: Ext, b: Ext, c: Ext, d: Ext, p: Point) -> Ext {
    ext_add(ext_add(ext_add(ext_mul(a, p.x), ext_mul(b, p.y)), ext_mul(c, p.z)), d)
}

/// The image of one coordinate under periodic repetition with the given cell
/// size: `(c + cell/2) mod cell - cell/2`.
pub open spec fn repeat_coord(m: MathModel, c: Ext, cell: Ext) -> Ext {
    ext_sub((m.modulo)(ext_add(c, ext_half(cell)), cell), ext_half(cell))
}

} // verus!
