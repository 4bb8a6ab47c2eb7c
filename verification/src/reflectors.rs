//! The reflector geometry catalog and the optical gain model.
//!
//! The tilt angle `alpha` of a reflector panel is a closed-form function
//! of the reflector multiplier alone, `alpha = asin((-m + sqrt(m^2 + 8)) / 4)`,
//! so the optimizer sees one scalar variable where the physics has two.
//! Its sine is irrational, so the gain functions here take it as a
//! rational argument and are exact in it; the caller evaluates the
//! closed form to whatever precision it carries.

use vstd::prelude::*;

use crate::design::Design;
use crate::design::DIM_LIMIT;
use crate::design::ML_LIMIT;
use crate::rational::Rational;

verus! {

/// Scale of reflecting areas: one square metre is `4 * 10^18`, so that
/// the trapezoid's quarter stays exact.
pub const REFLECTOR_AREA_SCALE: i128 = 4_000_000_000_000_000_000;

/// Shape of the booster reflector panels.
#[derive(Clone, Copy, Debug, PartialEq, Eq, Hash, Structural)]
pub enum ReflectorType {
    Rectangular,
    Trapezoidal,
}

impl ReflectorType {
    /// The variant at position `i` of catalog order.
    pub open spec fn spec_from_index(i: int) -> ReflectorType {
        if i == 0 {
            ReflectorType::Rectangular
        } else {
            ReflectorType::Trapezoidal
        }
    }

    /// This variant's position in catalog order.
    pub open spec fn spec_index(self) -> int {
        match self {
            ReflectorType::Rectangular => 0,
            ReflectorType::Trapezoidal => 1,
        }
    }

    /// The variant at position `i` of catalog order.
    pub(crate) fn from_index(i: usize) -> (r: ReflectorType)
        requires
            i < 2,
        ensures
            r == ReflectorType::spec_from_index(i as int),
    {
        if i == 0 {
            ReflectorType::Rectangular
        } else {
            ReflectorType::Trapezoidal
        }
    }

    /// Numerator of the solar gain multiplier for `count` panels of
    /// reflectivity `re4` (ten-thousandths), multiplier `ml`
    /// (thousandths) and tilt sine `sn / sd`.
    pub open spec fn spec_gain_num(self, count: int, re4: int, ml: int, sn: int, sd: int) -> int {
        match self {
            ReflectorType::Rectangular => 10_000_000 * sd + count * re4 * ml * sn,
            ReflectorType::Trapezoidal => 10_000_000_000 * (sd * sd) + count * re4 * ml * sn * (
            1000 * sd + ml * sn),
        }
    }

    /// Denominator of the solar gain multiplier for tilt sine `sn / sd`.
    pub open spec fn spec_gain_den(self, sd: int) -> int {
        match self {
            ReflectorType::Rectangular => 10_000_000 * sd,
            ReflectorType::Trapezoidal => 10_000_000_000 * (sd * sd),
        }
    }

    /// The solar gain multiplier: `1 + count * reflectivity * ml * sin(alpha)`
    /// for rectangular panels, with the trapezoid's extra
    /// `(1 + ml * sin(alpha))` factor for trapezoidal ones. Exact in the
    /// supplied tilt sine.
    pub fn calc_gain(&self, count: u8, reflectivity: i64, reflector_ml: i64, sin_alpha: &Rational) -> (r:
        Rational)
        requires
            0 <= reflectivity <= 10_000,
            0 <= reflector_ml <= ML_LIMIT,
            0 < sin_alpha.den <= 1_000_000_000,
            0 <= sin_alpha.num <= sin_alpha.den,
        ensures
            r.num == self.spec_gain_num(
                count as int,
                reflectivity as int,
                reflector_ml as int,
                sin_alpha.num as int,
                sin_alpha.den as int,
            ),
            r.den == self.spec_gain_den(sin_alpha.den as int),
            r.wf(),
    {
        let c = count as i128;
        let re4 = reflectivity as i128;
        let ml = reflector_ml as i128;
        let sn = sin_alpha.num;
        let sd = sin_alpha.den;
        proof {
            assert(0 <= c * re4 <= 2_550_000 && 0 <= c * re4 * ml <= 255_000_000_000 && 0 <= c
                * re4 * ml * sn <= 255_000_000_000_000_000_000_000 && 0 < sd * sd
                <= 1_000_000_000_000_000_000 && 0 <= ml * sn <= 100_000_000_000_000 && 0 <= c * re4
                * ml * sn * (1000 * sd + ml * sn)
                <= 100_000_000_000_000_000_000_000_000_000_000_000_000) by (nonlinear_arith)
                requires
                    0 <= c <= 255,
                    0 <= re4 <= 10_000,
                    0 <= ml <= 100_000,
                    0 < sd <= 1_000_000_000,
                    0 <= sn <= sd,
            ;
        }
        match self {
            ReflectorType::Rectangular => Rational::new(
                10_000_000 * sd + c * re4 * ml * sn,
                10_000_000 * sd,
            ),
            ReflectorType::Trapezoidal => Rational::new(
                10_000_000_000 * (sd * sd) + c * re4 * ml * sn * (1000 * sd + ml * sn),
                10_000_000_000 * (sd * sd),
            ),
        }
    }

    /// Total reflecting area for multiplier `ml` (thousandths), window
    /// side `window` (micrometres) and `n` panels, in units of
    /// `1 / REFLECTOR_AREA_SCALE` square metres. A trapezoidal panel
    /// set with a multiplier below one has negative nominal area, as
    /// the geometry degenerates.
    pub open spec fn spec_area(self, ml: int, window: int, n: int) -> int {
        match self {
            ReflectorType::Rectangular => 4000 * ml * (window * window) * n,
            ReflectorType::Trapezoidal => ((ml * window) * (ml * window) - window * window
                * 1_000_000) * n,
        }
    }

    /// Total reflecting area (see `spec_area`).
    pub fn area(&self, ml: i64, window: i64, n_reflectors: u8) -> (r: i128)
        requires
            0 <= ml <= ML_LIMIT,
            0 <= window <= DIM_LIMIT,
        ensures
            r == self.spec_area(ml as int, window as int, n_reflectors as int),
            -300_000_000_000_000_000_000_000_000 <= r <= 300_000_000_000_000_000_000_000_000,
    {
        let m = ml as i128;
        let w = window as i128;
        let n = n_reflectors as i128;
        proof {
            assert(0 <= w * w <= 100_000_000_000_000 && 0 <= 4000 * m <= 400_000_000 && 0 <= (4000
                * m) * (w * w) <= 40_000_000_000_000_000_000_000 && 0 <= 4000 * m * (w * w) * n
                <= 100_000_000_000_000_000_000_000_000 && 0 <= m * w <= 1_000_000_000_000 && 0 <= (
            m * w) * (m * w) <= 1_000_000_000_000_000_000_000_000 && ((m * w) * (m * w) - w * w
                * 1_000_000) * n <= 300_000_000_000_000_000_000_000_000 && ((m * w) * (m * w) - w
                * w * 1_000_000) * n >= -300_000_000_000_000_000_000_000_000) by (nonlinear_arith)
                requires
                    0 <= m <= 100_000,
                    0 <= w <= 10_000_000,
                    0 <= n <= 255,
            ;
        }
        match self {
            ReflectorType::Rectangular => 4000 * m * (w * w) * n,
            ReflectorType::Trapezoidal => ((m * w) * (m * w) - w * w * 1_000_000) * n,
        }
    }

    /// Every catalog variant of this category, in catalog order.
    pub fn variants() -> (r: Vec<ReflectorType>)
        ensures
            r@ == seq![ReflectorType::Rectangular, ReflectorType::Trapezoidal],
    {
        let mut v: Vec<ReflectorType> = Vec::new();
        v.push(ReflectorType::Rectangular);
        v.push(ReflectorType::Trapezoidal);
        proof {
            assert(v@ =~= seq![ReflectorType::Rectangular, ReflectorType::Trapezoidal]);
        }
        v
    }
}

impl Design {
    /// The design's solar gain multiplier, exact in the supplied tilt
    /// sine (see `ReflectorType::calc_gain`).
    pub fn gain(&self, sin_alpha: &Rational) -> (r: Rational)
        requires
            0 <= self.reflector_ml <= ML_LIMIT,
            0 < sin_alpha.den <= 1_000_000_000,
            0 <= sin_alpha.num <= sin_alpha.den,
        ensures
            r.num == self.reflector_type.spec_gain_num(
                self.reflector_count as int,
                self.reflectors.spec_reflectivity(),
                self.reflector_ml as int,
                sin_alpha.num as int,
                sin_alpha.den as int,
            ),
            r.den == self.reflector_type.spec_gain_den(sin_alpha.den as int),
            r.wf(),
    {
        self.reflector_type.calc_gain(
            self.reflector_count,
            self.reflectors.reflectivity(),
            self.reflector_ml,
            sin_alpha,
        )
    }
}

} // verus!
