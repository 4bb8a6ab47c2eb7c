//! Exact rational numbers, used wherever the model divides.
//!
//! Values of the model that are not whole in any decimal scale (a fitted
//! slope, a shell conductance, a score) are carried as a quotient of two
//! integers. Contracts speak of such values through the cross-multiplied
//! comparison predicates below, which never round, and pin each computed
//! numerator and denominator down by exact integer equations.

use vstd::prelude::*;

verus! {

/// A quotient `num / den` of two integers. Well-formed values keep the
/// denominator strictly positive, so the sign lives in the numerator.
#[derive(Clone, Copy, Debug, PartialEq, Eq, Structural)]
pub struct Rational {
    pub num: i128,
    pub den: i128,
}

impl Rational {
    /// Well-formedness: the denominator is strictly positive.
    pub open spec fn wf(self) -> bool {
        self.den > 0
    }

    /// The rational with the given whole value.
    pub open spec fn spec_int(n: int) -> Rational {
        Rational { num: n as i128, den: 1 }
    }

    /// Constructs `num / den` from a checked positive denominator.
    pub fn new(num: i128, den: i128) -> (r: Rational)
        requires
            den > 0,
        ensures
            r.num == num && r.den == den,
            r.wf(),
    {
        Rational { num, den }
    }

    /// Constructs the rational with the given whole value.
    pub fn from_int(n: i64) -> (r: Rational)
        ensures
            r == Rational::spec_int(n as int),
            r.wf(),
    {
        Rational { num: n as i128, den: 1 }
    }
}

/// Whether `a <= b` as values, for well-formed operands.
pub open spec fn rat_le(a: Rational, b: Rational) -> bool {
    a.num * b.den <= b.num * a.den
}

/// Whether `a < b` as values, for well-formed operands.
pub open spec fn rat_lt(a: Rational, b: Rational) -> bool {
    a.num * b.den < b.num * a.den
}

} // verus!
