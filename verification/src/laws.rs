//! Library-level laws, each stated and proved over the evaluation semantics,
//! together with the arithmetic facts behind the balanced reduction.

use vstd::prelude::*;

use crate::semantics::Ext;
use crate::semantics::Rat;
use crate::semantics::ext_abs;
use crate::semantics::ext_eq;
use crate::semantics::ext_finite;
use crate::semantics::ext_is_zero;
use crate::semantics::ext_neg;
use crate::semantics::ext_sign;
use crate::semantics::ext_sub;
use crate::semantics::ext_wf;
use crate::semantics::Point;
use crate::semantics::affine_coord;
use crate::semantics::ext_add;
use crate::semantics::ext_div;
use crate::semantics::ext_mul;
use crate::semantics::ext_one;
use crate::semantics::ext_recip;
use crate::semantics::ext_min;
use crate::semantics::ext_le;
use crate::semantics::ext_max;
use crate::semantics::ext_zero;

verus! {

/// The ceiling of the base-two logarithm: the number of pairing levels a
/// balanced reduction places over `n` inputs.
pub open spec fn clog2(n: nat) -> nat
    decreases n,
{
    if n <= 1 {
        0
    } else {
        (1 + clog2(((n + 1) / 2) as nat)) as nat
    }
}

pub proof fn lemma_clog2_mono(a: nat, b: nat)
    requires
        a <= b,
    ensures
        clog2(a) <= clog2(b),
    decreases b,
{
    if a <= 1 {
        assert(clog2(a) == 0);
    } else {
        lemma_clog2_mono(((a + 1) / 2) as nat, ((b + 1) / 2) as nat);
    }
}

/// Splitting `n` inputs into a low half of `n / 2` and a high half of
/// `n - n / 2` costs one pairing level over the deeper (high) half.
pub proof fn lemma_clog2_split(n: nat)
    requires
        n >= 2,
    ensures
        clog2(n) == 1 + clog2((n - n / 2) as nat),
        clog2((n / 2) as nat) <= clog2((n - n / 2) as nat),
{
    assert(n - n / 2 == (n + 1) / 2);
    lemma_clog2_mono((n / 2) as nat, ((n + 1) / 2) as nat);
}

/// The number of combine levels the balanced reduction stacks over `n`
/// inputs: none over a single input, else one over the deeper of the two
/// halves (the low half holds `n / 2` inputs).
pub open spec fn reduce_levels(n: nat) -> nat
    decreases n,
{
    if n <= 1 {
        0
    } else {
        let rl = reduce_levels((n / 2) as nat);
        let rr = reduce_levels((n - n / 2) as nat);
        (1 + if rl >= rr {
            rl
        } else {
            rr
        }) as nat
    }
}

/// Balanced depth: the balanced reduction places exactly `ceil(log2 n)`
/// combine levels over `n` inputs.
pub proof fn lemma_reduce_levels(n: nat)
    requires
        n >= 1,
    ensures
        reduce_levels(n) == clog2(n),
    decreases n,
{
    if n >= 2 {
        lemma_reduce_levels((n / 2) as nat);
        lemma_reduce_levels((n - n / 2) as nat);
        lemma_clog2_split(n);
    }
}

/// Inverting a field value twice gives the value back, so inverting a shape
/// twice gives a tree that evaluates as the original everywhere.
pub proof fn lemma_inverse_involution(v: Ext)
    ensures
        ext_neg(ext_neg(v)) == v,
{
}

/// The zero set of a shell: for finite well-formed field value `v` and
/// finite non-negative thickness `t`, the shell value `|v| - t` is zero
/// exactly where `v` equals `t` or `-t`.
pub proof fn lemma_onion_zero_set(v: Ext, t: Ext)
    requires
        ext_wf(v),
        ext_wf(t),
        ext_finite(v),
        ext_finite(t),
        ext_sign(t) >= 0,
    ensures
        ext_is_zero(ext_sub(ext_abs(v), t)) <==> (ext_eq(v, t) || ext_eq(v, ext_neg(t))),
{
    let a = v->Fin_0.num;
    let b = v->Fin_0.den;
    let c = t->Fin_0.num;
    let d = t->Fin_0.den;
    assert(b > 0 && d > 0 && c >= 0);
    let h = if a >= 0 { a } else { -a };
    assert(ext_abs(v) == Ext::Fin(Rat { num: h, den: b }));
    assert(ext_neg(t) == Ext::Fin(Rat { num: -c, den: d }));
    assert(ext_sub(ext_abs(v), t) == Ext::Fin(Rat { num: h * d + -c * b, den: b * d }));
    assert(ext_is_zero(ext_sub(ext_abs(v), t)) <==> h * d + -c * b == 0);
    assert(ext_eq(v, t) <==> a * d == c * b);
    assert(ext_eq(v, ext_neg(t)) <==> a * d == -c * b);
    assert(c * b >= 0) by (nonlinear_arith)
        requires
            c >= 0,
            b > 0,
    ;
    assert(-c * b == -(c * b)) by (nonlinear_arith);
    if a >= 0 {
        assert(a * d >= 0) by (nonlinear_arith)
            requires
                a >= 0,
                d > 0,
        ;
        assert(h == a);
        if a * d == -c * b {
            assert(a * d == 0 && c * b == 0) by (nonlinear_arith)
                requires
                    a * d >= 0,
                    c * b >= 0,
                    a * d == -c * b,
            ;
        }
        assert(h * d + -c * b == 0 <==> (a * d == c * b || a * d == -c * b));
    } else {
        assert(a * d < 0) by (nonlinear_arith)
            requires
                a < 0,
                d > 0,
        ;
        assert(-a * d == -(a * d)) by (nonlinear_arith);
        assert(h * d == -(a * d));
        assert(h * d + -c * b == 0 <==> (a * d == c * b || a * d == -c * b)) by {
            assert(a * d != c * b);
        }
    }
}

/// A translation row substitutes `x + d` for the coordinate: the affine
/// chain with linear part `(1, 0, 0)` and translation `d` is equivalent,
/// at finite well-formed points, to adding `d` to the first coordinate.
#[verifier::rlimit(60)]
pub proof fn lemma_translation_coord(d: Ext, p: Point)
    requires
        ext_wf(p.x),
        ext_wf(p.y),
        ext_wf(p.z),
        ext_wf(d),
        ext_finite(p.x),
        ext_finite(p.y),
        ext_finite(p.z),
        ext_finite(d),
    ensures
        ext_eq(affine_coord(ext_one(), ext_zero(), ext_zero(), d, p), ext_add(p.x, d)),
{
    let xn = p.x->Fin_0.num;
    let xd = p.x->Fin_0.den;
    let yd = p.y->Fin_0.den;
    let zd = p.z->Fin_0.den;
    let dn = d->Fin_0.num;
    let dd = d->Fin_0.den;
    let u = yd * zd;
    assert(ext_zero() == Ext::Fin(Rat { num: 0, den: 1 }));
    assert(ext_mul(ext_one(), p.x) == Ext::Fin(Rat { num: xn, den: xd }));
    assert(ext_mul(ext_zero(), p.y) == Ext::Fin(Rat { num: 0, den: yd }));
    assert(ext_mul(ext_zero(), p.z) == Ext::Fin(Rat { num: 0, den: zd }));
    let t1 = ext_add(ext_mul(ext_one(), p.x), ext_mul(ext_zero(), p.y));
    assert(t1 == Ext::Fin(Rat { num: xn * yd + 0 * xd, den: xd * yd }));
    let t2 = ext_add(t1, ext_mul(ext_zero(), p.z));
    assert(t2 == Ext::Fin(Rat { num: (xn * yd + 0 * xd) * zd + 0 * (xd * yd), den: (xd * yd) * zd }));
    assert((xn * yd + 0 * xd) * zd + 0 * (xd * yd) == xn * u) by (nonlinear_arith)
        requires
            u == yd * zd,
    ;
    assert((xd * yd) * zd == xd * u) by (nonlinear_arith)
        requires
            u == yd * zd,
    ;
    assert(t2 == Ext::Fin(Rat { num: xn * u, den: xd * u }));
    let t3 = ext_add(t2, d);
    assert(t3 == Ext::Fin(Rat { num: (xn * u) * dd + dn * (xd * u), den: (xd * u) * dd }));
    assert((xn * u) * dd + dn * (xd * u) == u * (xn * dd + dn * xd)) by (nonlinear_arith);
    assert((u * (xn * dd + dn * xd)) * (xd * dd) == (xn * dd + dn * xd) * ((xd * u) * dd))
        by (nonlinear_arith);
    assert(ext_add(p.x, d) == Ext::Fin(Rat { num: xn * dd + dn * xd, den: xd * dd }));
}

/// A scaling row substitutes `s * x` for the coordinate: the affine chain
/// with linear part `(s, 0, 0)` and no translation is equivalent, at
/// finite well-formed points, to multiplying the first coordinate by `s`.
#[verifier::rlimit(60)]
pub proof fn lemma_scaling_coord(s: Ext, p: Point)
    requires
        ext_wf(p.x),
        ext_wf(p.y),
        ext_wf(p.z),
        ext_wf(s),
        ext_finite(p.x),
        ext_finite(p.y),
        ext_finite(p.z),
        ext_finite(s),
    ensures
        ext_eq(affine_coord(s, ext_zero(), ext_zero(), ext_zero(), p), ext_mul(s, p.x)),
{
    let xn = p.x->Fin_0.num;
    let xd = p.x->Fin_0.den;
    let yd = p.y->Fin_0.den;
    let zd = p.z->Fin_0.den;
    let sn = s->Fin_0.num;
    let sd = s->Fin_0.den;
    let u = yd * zd;
    assert(ext_zero() == Ext::Fin(Rat { num: 0, den: 1 }));
    assert(ext_mul(s, p.x) == Ext::Fin(Rat { num: sn * xn, den: sd * xd }));
    assert(ext_mul(ext_zero(), p.y) == Ext::Fin(Rat { num: 0, den: yd }));
    assert(ext_mul(ext_zero(), p.z) == Ext::Fin(Rat { num: 0, den: zd }));
    let t1 = ext_add(ext_mul(s, p.x), ext_mul(ext_zero(), p.y));
    assert(t1 == Ext::Fin(Rat { num: (sn * xn) * yd + 0 * (sd * xd), den: (sd * xd) * yd }));
    let t2 = ext_add(t1, ext_mul(ext_zero(), p.z));
    assert(t2 == Ext::Fin(
        Rat {
            num: ((sn * xn) * yd + 0 * (sd * xd)) * zd + 0 * ((sd * xd) * yd),
            den: ((sd * xd) * yd) * zd,
        },
    ));
    assert(((sn * xn) * yd + 0 * (sd * xd)) * zd + 0 * ((sd * xd) * yd) == (sn * xn) * u)
        by (nonlinear_arith)
        requires
            u == yd * zd,
    ;
    assert(((sd * xd) * yd) * zd == (sd * xd) * u) by (nonlinear_arith)
        requires
            u == yd * zd,
    ;
    assert(t2 == Ext::Fin(Rat { num: (sn * xn) * u, den: (sd * xd) * u }));
    let t3 = ext_add(t2, ext_zero());
    assert(t3 == Ext::Fin(Rat { num: ((sn * xn) * u) * 1 + 0 * ((sd * xd) * u), den: ((sd * xd) * u) * 1 }));
    assert((((sn * xn) * u) * 1 + 0 * ((sd * xd) * u)) * (sd * xd) == (sn * xn) * (((sd * xd) * u)
        * 1)) by (nonlinear_arith);
}

/// Multiplying by the exact reciprocal is dividing: for a finite
/// well-formed scale `s` and any finite well-formed coordinate `x`,
/// `recip(s) * x` is equivalent to `x / s` (division by zero included:
/// both follow the sign of `x`).
pub proof fn lemma_recip_is_div(s: Ext, x: Ext)
    requires
        ext_wf(s),
        ext_wf(x),
        ext_finite(s),
        ext_finite(x),
    ensures
        ext_eq(ext_mul(ext_recip(s), x), ext_div(x, s)),
{
    let sn = s->Fin_0.num;
    let sd = s->Fin_0.den;
    let xn = x->Fin_0.num;
    let xd = x->Fin_0.den;
    if sn > 0 {
        assert((sd * xn) * (xd * sn) == (xn * sd) * (sn * xd)) by (nonlinear_arith);
    } else if sn < 0 {
        assert((-sd * xn) * (-(xd * sn)) == (-(xn * sd)) * (-sn * xd)) by (nonlinear_arith);
    }
}

/// The lattice operations are commutative up to value equality, so union
/// and intersection do not depend on the order of their inputs as
/// functions from point to value.
pub proof fn lemma_min_comm(a: Ext, b: Ext)
    requires
        ext_wf(a),
        ext_wf(b),
    ensures
        ext_eq(ext_min(a, b), ext_min(b, a)),
{
}

pub proof fn lemma_max_comm(a: Ext, b: Ext)
    requires
        ext_wf(a),
        ext_wf(b),
    ensures
        ext_eq(ext_max(a, b), ext_max(b, a)),
{
}

/// The order on defined well-formed values is total and transitive.
proof fn lemma_ext_le_total(a: Ext, b: Ext)
    requires
        ext_wf(a),
        ext_wf(b),
        !(a matches Ext::Undef),
        !(b matches Ext::Undef),
    ensures
        ext_le(a, b) || ext_le(b, a),
{
}

proof fn lemma_ext_le_trans(a: Ext, b: Ext, c: Ext)
    requires
        ext_wf(a),
        ext_wf(b),
        ext_wf(c),
        ext_le(a, b),
        ext_le(b, c),
    ensures
        ext_le(a, c),
{
    if (a matches Ext::Fin(ra)) && (b matches Ext::Fin(rb)) && (c matches Ext::Fin(rc)) {
        let ra = a->Fin_0;
        let rb = b->Fin_0;
        let rc = c->Fin_0;
        assert(ra.num * rc.den <= rc.num * ra.den) by (nonlinear_arith)
            requires
                ra.num * rb.den <= rb.num * ra.den,
                rb.num * rc.den <= rc.num * rb.den,
                ra.den > 0,
                rb.den > 0,
                rc.den > 0,
        ;
    }
}

/// The lattice operations are associative up to value equality.
pub proof fn lemma_min_assoc(a: Ext, b: Ext, c: Ext)
    requires
        ext_wf(a),
        ext_wf(b),
        ext_wf(c),
    ensures
        ext_eq(ext_min(a, ext_min(b, c)), ext_min(ext_min(a, b), c)),
{
    if !(a matches Ext::Undef) && !(b matches Ext::Undef) && !(c matches Ext::Undef) {
        lemma_ext_le_total(a, b);
        lemma_ext_le_total(b, c);
        lemma_ext_le_total(a, c);
        if ext_le(a, b) && ext_le(b, c) {
            lemma_ext_le_trans(a, b, c);
        }
        if ext_le(c, b) && ext_le(b, a) {
            lemma_ext_le_trans(c, b, a);
        }
        if ext_le(b, a) && ext_le(a, c) {
            lemma_ext_le_trans(b, a, c);
        }
        if ext_le(c, a) && ext_le(a, b) {
            lemma_ext_le_trans(c, a, b);
        }
        if ext_le(a, c) && ext_le(c, b) {
            lemma_ext_le_trans(a, c, b);
        }
        if ext_le(b, c) && ext_le(c, a) {
            lemma_ext_le_trans(b, c, a);
        }
    }
}

pub proof fn lemma_max_assoc(a: Ext, b: Ext, c: Ext)
    requires
        ext_wf(a),
        ext_wf(b),
        ext_wf(c),
    ensures
        ext_eq(ext_max(a, ext_max(b, c)), ext_max(ext_max(a, b), c)),
{
    if !(a matches Ext::Undef) && !(b matches Ext::Undef) && !(c matches Ext::Undef) {
        lemma_ext_le_total(a, b);
        lemma_ext_le_total(b, c);
        lemma_ext_le_total(a, c);
        if ext_le(a, b) && ext_le(b, c) {
            lemma_ext_le_trans(a, b, c);
        }
        if ext_le(c, b) && ext_le(b, a) {
            lemma_ext_le_trans(c, b, a);
        }
        if ext_le(b, a) && ext_le(a, c) {
            lemma_ext_le_trans(b, a, c);
        }
        if ext_le(c, a) && ext_le(a, b) {
            lemma_ext_le_trans(c, a, b);
        }
        if ext_le(a, c) && ext_le(c, b) {
            lemma_ext_le_trans(a, c, b);
        }
        if ext_le(b, c) && ext_le(c, a) {
            lemma_ext_le_trans(b, c, a);
        }
    }
}

} // verus!
