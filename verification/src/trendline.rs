//! The two-parameter natural-log-linear trend model `y = a * ln(x) + b`.
//!
//! A trend line appears twice in the oven model: a glazing carries a
//! calibration line fitted offline over measured data, and the thermal
//! model fits a second line over predicted temperatures. The equilibrium
//! temperature is the y-value where the two lines agree.
//!
//! Calibration constants are exact in hundred-millionths, so a stored
//! line keeps its two constants as integers at that scale. A line fitted
//! here by ordinary least squares is exact as a pair of rationals over
//! the supplied `(ln(x), y)` samples.

use vstd::prelude::*;
use vstd::seq_lib::commutative_foldl;
use vstd::seq_lib::lemma_fold_left_permutation;

use crate::errors::ModelError;
use crate::rational::Rational;

verus! {

/// Scale of stored trend-line constants: hundred-millionths.
pub const LINE_SCALE: i64 = 100_000_000;

/// Largest magnitude accepted for a stored trend-line constant, chosen
/// so that every product taken when intersecting two lines fits in
/// 128 bits.
pub const LINE_LIMIT: i64 = 1_000_000_000_000_000;

/// A line `y = coefficient * ln(x) + intercept`, both constants in
/// hundred-millionths (`LINE_SCALE`).
#[derive(Clone, Copy, Debug, PartialEq, Eq, Structural)]
pub struct LNTrendline {
    pub coefficient: i64,
    pub intercept: i64,
}

/// One least-squares input sample `(ln(x), y)`, both in millionths.
pub type SamplePoint = (i64, i64);

/// Sum of the first components of `ps`.
pub open spec fn sum_x(ps: Seq<SamplePoint>) -> int {
    ps.fold_left(0int, |acc: int, p: SamplePoint| acc + p.0)
}

/// Sum of the second components of `ps`.
pub open spec fn sum_y(ps: Seq<SamplePoint>) -> int {
    ps.fold_left(0int, |acc: int, p: SamplePoint| acc + p.1)
}

/// Sum of the squared first components of `ps`.
pub open spec fn sum_xx(ps: Seq<SamplePoint>) -> int {
    ps.fold_left(0int, |acc: int, p: SamplePoint| acc + p.0 * p.0)
}

/// Sum of the products of both components of `ps`.
pub open spec fn sum_xy(ps: Seq<SamplePoint>) -> int {
    ps.fold_left(0int, |acc: int, p: SamplePoint| acc + p.0 * p.1)
}

/// Numerator of the least-squares slope over `ps`.
pub open spec fn fit_num(ps: Seq<SamplePoint>) -> int {
    ps.len() * sum_xy(ps) - sum_x(ps) * sum_y(ps)
}

/// Denominator of the least-squares slope over `ps`: `n` times the
/// variance of the first components, zero exactly when the samples are
/// degenerate.
pub open spec fn fit_den(ps: Seq<SamplePoint>) -> int {
    ps.len() * sum_xx(ps) - sum_x(ps) * sum_x(ps)
}

/// Whether every sample of `ps` is within the magnitude accepted by
/// `fit`: one billion, i.e. one thousand whole units in millionths.
pub open spec fn samples_bounded(ps: Seq<SamplePoint>) -> bool {
    forall|i: int|
        0 <= i < ps.len() ==> -1_000_000_000 <= (#[trigger] ps[i]).0 <= 1_000_000_000
            && -1_000_000_000 <= ps[i].1 <= 1_000_000_000
}

/// Cross-multiplied statement that the line fitted over `ps` passes
/// through the point `p`: with slope `fit_num/fit_den` and intercept
/// `(sum_y * fit_den - fit_num * sum_x) / (n * fit_den)`, evaluating at
/// `p.0` yields exactly `p.1`.
pub open spec fn fitted_line_passes_through(ps: Seq<SamplePoint>, p: SamplePoint) -> bool {
    fit_num(ps) * p.0 * ps.len() + (sum_y(ps) * fit_den(ps) - fit_num(ps) * sum_x(ps)) == p.1
        * (ps.len() * fit_den(ps))
}

/// A line fitted by ordinary least squares, exact as two rationals.
#[derive(Clone, Copy, Debug, PartialEq, Eq, Structural)]
pub struct FittedLine {
    pub coefficient: Rational,
    pub intercept: Rational,
}

/// Fits `y = a * x + b` to the samples by ordinary least squares,
/// exactly. Fails, and only fails, when fewer than two samples are given
/// or all first components are equal (a vertical or undetermined line).
pub fn fit(points: &Vec<SamplePoint>) -> (r: Result<FittedLine, ModelError>)
    requires
        points@.len() <= 16,
        samples_bounded(points@),
    ensures
        match r {
            Ok(line) => {
                &&& points@.len() >= 2
                &&& fit_den(points@) > 0
                &&& line.coefficient.num == fit_num(points@)
                &&& line.coefficient.den == fit_den(points@)
                &&& line.intercept.num == sum_y(points@) * fit_den(points@) - fit_num(points@)
                    * sum_x(points@)
                &&& line.intercept.den == points@.len() * fit_den(points@)
                &&& line.coefficient.wf()
                &&& line.intercept.wf()
            },
            Err(e) => e == ModelError::Regression && (points@.len() < 2 || fit_den(points@)
                <= 0),
        },
{
    let n_usize = points.len();
    let mut sx: i128 = 0;
    let mut sy: i128 = 0;
    let mut sxx: i128 = 0;
    let mut sxy: i128 = 0;
    let mut i: usize = 0;
    while i < n_usize
        invariant
            i <= n_usize,
            n_usize == points@.len() <= 16,
            samples_bounded(points@),
            sx == sum_x(points@.subrange(0, i as int)),
            sy == sum_y(points@.subrange(0, i as int)),
            sxx == sum_xx(points@.subrange(0, i as int)),
            sxy == sum_xy(points@.subrange(0, i as int)),
            -(i as int) * 1_000_000_000 <= sx <= (i as int) * 1_000_000_000,
            -(i as int) * 1_000_000_000 <= sy <= (i as int) * 1_000_000_000,
            0 <= sxx <= (i as int) * 1_000_000_000_000_000_000,
            -(i as int) * 1_000_000_000_000_000_000 <= sxy <= (i as int)
                * 1_000_000_000_000_000_000,
        decreases n_usize - i,
    {
        let (px, py) = points[i];
        let x = px as i128;
        let y = py as i128;
        proof {
            let pre = points@.subrange(0, i as int);
            let cur = points@.subrange(0, i as int + 1);
            assert(cur.drop_last() =~= pre);
            assert(cur.last() == points@[i as int]);
            assert(sum_x(cur) == sum_x(pre) + points@[i as int].0);
            assert(sum_y(cur) == sum_y(pre) + points@[i as int].1);
            assert(sum_xx(cur) == sum_xx(pre) + points@[i as int].0 * points@[i as int].0);
            assert(sum_xy(cur) == sum_xy(pre) + points@[i as int].0 * points@[i as int].1);
            assert(-1_000_000_000 <= points@[i as int].0 <= 1_000_000_000);
            assert(0 <= x * x <= 1_000_000_000_000_000_000 && -1_000_000_000_000_000_000 <= x * y
                <= 1_000_000_000_000_000_000) by (nonlinear_arith)
                requires
                    -1_000_000_000 <= x <= 1_000_000_000,
                    -1_000_000_000 <= y <= 1_000_000_000,
            ;
        }
        sx = sx + x;
        sy = sy + y;
        sxx = sxx + x * x;
        sxy = sxy + x * y;
        i = i + 1;
    }
    proof {
        assert(points@.subrange(0, n_usize as int) =~= points@);
    }
    if n_usize < 2 {
        return Err(ModelError::Regression);
    }
    let n = n_usize as i128;
    proof {
        assert(-260_000_000_000_000_000_000 <= n * sxy <= 260_000_000_000_000_000_000
            && -260_000_000_000_000_000_000 <= sx * sy <= 260_000_000_000_000_000_000
            && -260_000_000_000_000_000_000 <= n * sxx <= 260_000_000_000_000_000_000 && 0 <= sx
            * sx <= 260_000_000_000_000_000_000) by (nonlinear_arith)
            requires
                0 <= n <= 16,
                -16_000_000_000 <= sx <= 16_000_000_000,
                -16_000_000_000 <= sy <= 16_000_000_000,
                -16_000_000_000_000_000_000 <= sxx <= 16_000_000_000_000_000_000,
                -16_000_000_000_000_000_000 <= sxy <= 16_000_000_000_000_000_000,
        ;
    }
    let a_num = n * sxy - sx * sy;
    let a_den = n * sxx - sx * sx;
    if a_den <= 0 {
        return Err(ModelError::Regression);
    }
    proof {
        assert(-9_000_000_000_000_000_000_000_000_000_000 <= sy * a_den
            <= 9_000_000_000_000_000_000_000_000_000_000 && -9_000_000_000_000_000_000_000_000_000_000
            <= a_num * sx <= 9_000_000_000_000_000_000_000_000_000_000 && 1 <= n * a_den
            <= 9_000_000_000_000_000_000_000_000_000_000) by (nonlinear_arith)
            requires
                2 <= n <= 16,
                -16_000_000_000 <= sx <= 16_000_000_000,
                -16_000_000_000 <= sy <= 16_000_000_000,
                -520_000_000_000_000_000_000 <= a_num <= 520_000_000_000_000_000_000,
                1 <= a_den <= 520_000_000_000_000_000_000,
        ;
    }
    let b_num = sy * a_den - a_num * sx;
    let b_den = n * a_den;
    Ok(
        FittedLine {
            coefficient: Rational::new(a_num, a_den),
            intercept: Rational::new(b_num, b_den),
        },
    )
}

impl LNTrendline {
    /// The y-value at which this line and `other` agree: the temperature
    /// at the self-consistent equilibrium, in hundred-millionths
    /// (`LINE_SCALE`) like the stored constants. Fails, and only fails,
    /// when the two slopes are equal (parallel lines never meet).
    ///
    /// The natural logarithm cancels out of the algebra: with slopes
    /// `sc, oc` and intercepts `si, oi`, the intersection's y-value is
    /// `(sc * oi - oc * si) / (sc - oc)`, exact in the stored constants.
    pub fn y_intercept(&self, other: &LNTrendline) -> (r: Result<Rational, ModelError>)
        requires
            -LINE_LIMIT <= self.coefficient <= LINE_LIMIT,
            -LINE_LIMIT <= self.intercept <= LINE_LIMIT,
            -LINE_LIMIT <= other.coefficient <= LINE_LIMIT,
            -LINE_LIMIT <= other.intercept <= LINE_LIMIT,
        ensures
            match r {
                Ok(y) => {
                    &&& self.coefficient != other.coefficient
                    &&& y.num * (self.coefficient - other.coefficient) == (self.coefficient
                        * other.intercept - other.coefficient * self.intercept) * y.den
                    &&& y.wf()
                },
                Err(e) => e == ModelError::NoIntersection && self.coefficient
                    == other.coefficient,
            },
    {
        if self.coefficient == other.coefficient {
            return Err(ModelError::NoIntersection);
        }
        let sc = self.coefficient as i128;
        let si = self.intercept as i128;
        let oc = other.coefficient as i128;
        let oi = other.intercept as i128;
        proof {
            assert(-0x10000000000000000000000000000 <= sc * oi <= 0x10000000000000000000000000000
                && -0x10000000000000000000000000000 <= oc * si
                <= 0x10000000000000000000000000000) by (nonlinear_arith)
                requires
                    -1_000_000_000_000_000 <= sc <= 1_000_000_000_000_000,
                    -1_000_000_000_000_000 <= si <= 1_000_000_000_000_000,
                    -1_000_000_000_000_000 <= oc <= 1_000_000_000_000_000,
                    -1_000_000_000_000_000 <= oi <= 1_000_000_000_000_000,
            ;
        }
        let num = sc * oi - oc * si;
        let den = sc - oc;
        let r = if den > 0 {
            Rational::new(num, den)
        } else {
            Rational::new(-num, -den)
        };
        proof {
            assert((-num) * den == num * (-den)) by (nonlinear_arith);
        }
        Ok(r)
    }

    /// The natural logarithm of the x-value at which this line and
    /// `other` agree: `(oi - si) / (sc - oc)`, a plain (unscaled) value
    /// exact in the stored constants. The x-value itself is its
    /// exponential. Fails, and only fails, when the two slopes are
    /// equal.
    pub fn x_intercept_ln(&self, other: &LNTrendline) -> (r: Result<Rational, ModelError>)
        requires
            -LINE_LIMIT <= self.coefficient <= LINE_LIMIT,
            -LINE_LIMIT <= self.intercept <= LINE_LIMIT,
            -LINE_LIMIT <= other.coefficient <= LINE_LIMIT,
            -LINE_LIMIT <= other.intercept <= LINE_LIMIT,
        ensures
            match r {
                Ok(x) => {
                    &&& self.coefficient != other.coefficient
                    &&& x.num * (self.coefficient - other.coefficient) == (other.intercept
                        - self.intercept) * x.den
                    &&& x.wf()
                },
                Err(e) => e == ModelError::NoIntersection && self.coefficient
                    == other.coefficient,
            },
    {
        if self.coefficient == other.coefficient {
            return Err(ModelError::NoIntersection);
        }
        let num = (other.intercept as i128) - (self.intercept as i128);
        let den = (self.coefficient as i128) - (other.coefficient as i128);
        let r = if den > 0 {
            Rational::new(num, den)
        } else {
            Rational::new(-num, -den)
        };
        proof {
            assert((-num) * den == num * (-den)) by (nonlinear_arith);
        }
        Ok(r)
    }
}

/// Ring identities behind the exact two-point fit.
proof fn lemma_two_point_algebra(x0: int, y0: int, x1: int, y1: int) by (nonlinear_arith)
    ensures
        2 * (x0 * x0 + x1 * x1) - (x0 + x1) * (x0 + x1) == (x0 - x1) * (x0 - x1),
        2 * (x0 * y0 + x1 * y1) - (x0 + x1) * (y0 + y1) == (x0 - x1) * (y0 - y1),
        ((x0 - x1) * (y0 - y1)) * x0 * 2 + ((y0 + y1) * ((x0 - x1) * (x0 - x1)) - ((x0 - x1) * (y0
            - y1)) * (x0 + x1)) == y0 * (2 * ((x0 - x1) * (x0 - x1))),
        ((x0 - x1) * (y0 - y1)) * x1 * 2 + ((y0 + y1) * ((x0 - x1) * (x0 - x1)) - ((x0 - x1) * (y0
            - y1)) * (x0 + x1)) == y1 * (2 * ((x0 - x1) * (x0 - x1))),
{
}

/// Unfolds the four sums for a two-sample sequence.
proof fn lemma_sums_two_points(ps: Seq<SamplePoint>)
    requires
        ps.len() == 2,
    ensures
        sum_x(ps) == ps[0].0 + ps[1].0,
        sum_y(ps) == ps[0].1 + ps[1].1,
        sum_xx(ps) == ps[0].0 * ps[0].0 + ps[1].0 * ps[1].0,
        sum_xy(ps) == ps[0].0 * ps[0].1 + ps[1].0 * ps[1].1,
{
    let s1 = ps.drop_last();
    let s0 = s1.drop_last();
    assert(s0.len() == 0);
    assert(s1.last() == ps[0] && ps.last() == ps[1]);
    assert(sum_x(s0) == 0 && sum_y(s0) == 0 && sum_xx(s0) == 0 && sum_xy(s0) == 0);
    assert(sum_x(s1) == ps[0].0 && sum_y(s1) == ps[0].1);
    assert(sum_xx(s1) == ps[0].0 * ps[0].0 && sum_xy(s1) == ps[0].0 * ps[0].1);
    assert(sum_x(ps) == sum_x(s1) + ps[1].0);
    assert(sum_y(ps) == sum_y(s1) + ps[1].1);
    assert(sum_xx(ps) == sum_xx(s1) + ps[1].0 * ps[1].0);
    assert(sum_xy(ps) == sum_xy(s1) + ps[1].0 * ps[1].1);
}

/// Over exactly two samples with distinct first components, least
/// squares is exact interpolation: the fitted line passes through both
/// samples.
pub proof fn lemma_fit_two_points(ps: Seq<SamplePoint>)
    requires
        ps.len() == 2,
        ps[0].0 != ps[1].0,
    ensures
        fit_den(ps) > 0,
        fitted_line_passes_through(ps, ps[0]),
        fitted_line_passes_through(ps, ps[1]),
{
    lemma_sums_two_points(ps);
    let x0 = ps[0].0 as int;
    let y0 = ps[0].1 as int;
    let x1 = ps[1].0 as int;
    let y1 = ps[1].1 as int;
    lemma_two_point_algebra(x0, y0, x1, y1);
    assert((x0 - x1) * (x0 - x1) > 0) by (nonlinear_arith)
        requires
            x0 != x1,
    ;
}

/// The least-squares sums, and with them the fitted line, depend only
/// on the multiset of samples, not on the order in which they are
/// supplied. Since the predicted equilibrium temperature is computed
/// from the fitted line alone, it inherits the same invariance to the
/// order of the calibration points.
pub proof fn lemma_fit_order_invariant(ps1: Seq<SamplePoint>, ps2: Seq<SamplePoint>)
    requires
        ps1.to_multiset() == ps2.to_multiset(),
    ensures
        ps1.len() == ps2.len(),
        sum_x(ps1) == sum_x(ps2),
        sum_y(ps1) == sum_y(ps2),
        sum_xx(ps1) == sum_xx(ps2),
        sum_xy(ps1) == sum_xy(ps2),
        fit_num(ps1) == fit_num(ps2),
        fit_den(ps1) == fit_den(ps2),
{
    broadcast use vstd::seq_lib::group_to_multiset_ensures;

    assert(ps1.len() == ps1.to_multiset().len());
    assert(ps2.len() == ps2.to_multiset().len());
    let fx = |acc: int, p: SamplePoint| acc + p.0;
    let fy = |acc: int, p: SamplePoint| acc + p.1;
    let fxx = |acc: int, p: SamplePoint| acc + p.0 * p.0;
    let fxy = |acc: int, p: SamplePoint| acc + p.0 * p.1;
    assert(commutative_foldl(fx));
    assert(commutative_foldl(fy));
    assert(commutative_foldl(fxx));
    assert(commutative_foldl(fxy));
    lemma_fold_left_permutation(ps1, ps2, fx, 0int);
    lemma_fold_left_permutation(ps1, ps2, fy, 0int);
    lemma_fold_left_permutation(ps1, ps2, fxx, 0int);
    lemma_fold_left_permutation(ps1, ps2, fxy, 0int);
}

} // verus!
