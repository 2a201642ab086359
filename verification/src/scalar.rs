//! Exact scalar parameters for shapes: rationals together with the two
//! infinities. A scalar's view is the extended value it denotes; a rational
//! with a zero denominator denotes the undefined value.

use vstd::prelude::*;

use crate::semantics::Ext;
use crate::semantics::Rat;
use crate::semantics::ext_half;
use crate::semantics::ext_neg;
use crate::semantics::ext_recip;

verus! {

/// A shape parameter: an exact rational `num / den`, or an infinity.
#[derive(Clone, Copy, Debug, PartialEq, Eq, Structural)]
pub enum Scalar {
    Rational { num: i64, den: u64 },
    PosInf,
    NegInf,
}

impl View for Scalar {
    type V = Ext;

    open spec fn view(&self) -> Ext {
        match *self {
            Scalar::Rational { num, den } => if den > 0 {
                Ext::Fin(Rat { num: num as int, den: den as int })
            } else {
                Ext::Undef
            },
            Scalar::PosInf => Ext::PosInf,
            Scalar::NegInf => Ext::NegInf,
        }
    }
}

impl Scalar {
    /// The rational `num / den`; a zero denominator denotes the undefined
    /// value.
    pub fn new(num: i64, den: u64) -> (r: Scalar)
        ensures
            r == (Scalar::Rational { num, den }),
    {
        Scalar::Rational { num, den }
    }

    /// The integer `v`.
    pub fn from_int(v: i64) -> (r: Scalar)
        ensures
            r@ == Ext::Fin(Rat { num: v as int, den: 1 }),
            r == (Scalar::Rational { num: v, den: 1u64 }),
    {
        Scalar::Rational { num: v, den: 1 }
    }

    pub fn zero() -> (r: Scalar)
        ensures
            r@ == crate::semantics::ext_zero(),
    {
        Scalar::Rational { num: 0, den: 1 }
    }

    pub fn one() -> (r: Scalar)
        ensures
            r@ == crate::semantics::ext_one(),
    {
        Scalar::Rational { num: 1, den: 1 }
    }

    pub fn pos_inf() -> (r: Scalar)
        ensures
            r == Scalar::PosInf,
            r@ == Ext::PosInf,
    {
        Scalar::PosInf
    }

    pub fn neg_inf() -> (r: Scalar)
        ensures
            r == Scalar::NegInf,
            r@ == Ext::NegInf,
    {
        Scalar::NegInf
    }

    /// Negation is exact unless the numerator is the one machine integer
    /// whose negation does not fit.
    pub open spec fn can_neg(self) -> bool {
        match self {
            Scalar::Rational { num, .. } => num != i64::MIN,
            _ => true,
        }
    }

    pub fn neg(self) -> (r: Scalar)
        requires
            self.can_neg(),
        ensures
            r@ == ext_neg(self@),
    {
        match self {
            Scalar::Rational { num, den } => Scalar::Rational { num: -num, den },
            Scalar::PosInf => Scalar::NegInf,
            Scalar::NegInf => Scalar::PosInf,
        }
    }

    /// The reciprocal is exact when numerator and denominator can swap roles
    /// within the machine integer ranges.
    pub open spec fn can_recip(self) -> bool {
        match self {
            Scalar::Rational { num, den } => den <= i64::MAX as u64 && num != i64::MIN,
            _ => true,
        }
    }

    pub fn recip(self) -> (r: Scalar)
        requires
            self.can_recip(),
        ensures
            r@ == ext_recip(self@),
    {
        match self {
            Scalar::Rational { num, den } => {
                if den == 0 {
                    Scalar::Rational { num, den }
                } else if num == 0 {
                    Scalar::PosInf
                } else if num > 0 {
                    Scalar::Rational { num: den as i64, den: num as u64 }
                } else {
                    Scalar::Rational { num: -(den as i64), den: (-num) as u64 }
                }
            },
            Scalar::PosInf => Scalar::Rational { num: 0, den: 1 },
            Scalar::NegInf => Scalar::Rational { num: 0, den: 1 },
        }
    }

    /// Halving is exact when the doubled denominator still fits.
    pub open spec fn can_halve(self) -> bool {
        match self {
            Scalar::Rational { den, .. } => den <= u64::MAX / 2,
            _ => true,
        }
    }

    pub fn halve(self) -> (r: Scalar)
        requires
            self.can_halve(),
        ensures
            r@ == ext_half(self@),
    {
        match self {
            Scalar::Rational { num, den } => Scalar::Rational { num, den: 2 * den },
            Scalar::PosInf => Scalar::PosInf,
            Scalar::NegInf => Scalar::NegInf,
        }
    }
}

} // verus!
