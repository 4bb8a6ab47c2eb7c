//! A candidate oven design: one choice from every material category
//! plus the continuous geometry, with its validity invariant, derived
//! geometry, shell conductance, and the thermal model's monotonicity
//! law.
//!
//! Lengths are in micrometres; the reflector multiplier is in
//! thousandths. The cooking chamber is a square-based box of side
//! `l_and_w` and height `h`.

use vstd::prelude::*;

use crate::materials::BodyMaterial;
use crate::materials::Absorber;
use crate::materials::Insulator;
use crate::materials::ReflectiveMaterial;
use crate::rational::Rational;
use crate::rational::rat_le;
use crate::rational::rat_lt;
use crate::reflectors::ReflectorType;
use crate::window::WindowMaterial;
use crate::AMBIENT_C;

verus! {

/// Largest geometry magnitude the arithmetic contracts accept: ten
/// metres, in micrometres.
pub const DIM_LIMIT: i64 = 10_000_000;

/// Largest reflector multiplier the arithmetic contracts accept: one
/// hundred, in thousandths.
pub const ML_LIMIT: i64 = 100_000;

/// Smallest acceptable cooking-chamber volume: one litre, in cubic
/// micrometres.
pub const MIN_CHAMBER_VOLUME_UM3: i128 = 1_000_000_000_000_000;

/// A fully specified candidate design.
#[derive(Clone, Copy, Debug, PartialEq, Eq, Structural)]
pub struct Design {
    pub absorber: Absorber,
    /// Side of the square cross-section, in micrometres.
    pub l_and_w: i64,
    /// Height of the cooking chamber, in micrometres.
    pub h: i64,
    pub inner_body: BodyMaterial,
    pub insulator: Insulator,
    /// Thickness of the insulation shell, in micrometres.
    pub insulator_thickness: i64,
    pub outer_body: BodyMaterial,
    pub window: WindowMaterial,
    pub reflectors: ReflectiveMaterial,
    pub reflector_count: u8,
    /// Ratio of reflector length to window side, in thousandths.
    pub reflector_ml: i64,
    pub reflector_type: ReflectorType,
}

impl Design {
    /// Volume of the cooking chamber, in cubic micrometres.
    pub open spec fn spec_chamber_volume(self) -> int {
        self.l_and_w * self.l_and_w * self.h
    }

    /// Area of the window opening, in square micrometres.
    pub open spec fn spec_aw(self) -> int {
        self.l_and_w * self.l_and_w
    }

    /// Heat-transfer area of the absorber/inner-shell assembly: the
    /// chamber floor plus its four side walls, in square micrometres.
    pub open spec fn spec_asb(self) -> int {
        self.l_and_w * self.l_and_w + 4 * self.h * self.l_and_w
    }

    /// Validity: every continuous dimension strictly positive, at least
    /// one reflector, and a cooking chamber of at least one litre.
    pub open spec fn spec_ok(self) -> bool {
        &&& self.l_and_w > 0
        &&& self.h > 0
        &&& self.insulator_thickness > 0
        &&& self.reflector_count >= 1
        &&& self.reflector_ml > 0
        &&& self.spec_chamber_volume() >= MIN_CHAMBER_VOLUME_UM3
    }

    /// Whether this design may be evaluated through the thermal model.
    pub fn ok(&self) -> (r: bool)
        requires
            -DIM_LIMIT <= self.l_and_w <= DIM_LIMIT,
            -DIM_LIMIT <= self.h <= DIM_LIMIT,
        ensures
            r == self.spec_ok(),
    {
        self.l_and_w > 0 && self.h > 0 && self.insulator_thickness > 0 && self.reflector_count
            >= 1 && self.reflector_ml > 0 && self.chamber_volume() >= MIN_CHAMBER_VOLUME_UM3
    }

    /// Volume of the cooking chamber, in cubic micrometres.
    pub fn chamber_volume(&self) -> (r: i128)
        requires
            -DIM_LIMIT <= self.l_and_w <= DIM_LIMIT,
            -DIM_LIMIT <= self.h <= DIM_LIMIT,
        ensures
            r == self.spec_chamber_volume(),
    {
        let l = self.l_and_w as i128;
        let h = self.h as i128;
        proof {
            assert(-1_000_000_000_000_000_000_000 <= l * l * h <= 1_000_000_000_000_000_000_000
                && -100_000_000_000_000 <= l * l <= 100_000_000_000_000) by (nonlinear_arith)
                requires
                    -10_000_000 <= l <= 10_000_000,
                    -10_000_000 <= h <= 10_000_000,
            ;
        }
        l * l * h
    }

    /// Area of the window opening, in square micrometres.
    pub fn aw(&self) -> (r: i128)
        requires
            -DIM_LIMIT <= self.l_and_w <= DIM_LIMIT,
        ensures
            r == self.spec_aw(),
            0 <= r <= 100_000_000_000_000,
    {
        let l = self.l_and_w as i128;
        proof {
            assert(0 <= l * l <= 100_000_000_000_000) by (nonlinear_arith)
                requires
                    -10_000_000 <= l <= 10_000_000,
            ;
        }
        l * l
    }

    /// Heat-transfer area of the absorber/inner-shell assembly, in
    /// square micrometres.
    pub fn asb(&self) -> (r: i128)
        requires
            -DIM_LIMIT <= self.l_and_w <= DIM_LIMIT,
            -DIM_LIMIT <= self.h <= DIM_LIMIT,
        ensures
            r == self.spec_asb(),
            self.l_and_w >= 0 && self.h >= 0 ==> 0 <= r <= 500_000_000_000_000,
    {
        let l = self.l_and_w as i128;
        let h = self.h as i128;
        proof {
            assert(0 <= l * l <= 100_000_000_000_000 && -400_000_000_000_000 <= 4 * h * l
                <= 400_000_000_000_000 && (l >= 0 && h >= 0 ==> 4 * h * l >= 0))
                by (nonlinear_arith)
                requires
                    -10_000_000 <= l <= 10_000_000,
                    -10_000_000 <= h <= 10_000_000,
            ;
        }
        l * l + 4 * h * l
    }

    /// Numerator of the shell conductance `Usb`: the product of the
    /// three layer conductivities.
    pub open spec fn spec_usb_num(self) -> int {
        self.inner_body.spec_conductivity() * self.insulator.spec_conductivity()
            * self.outer_body.spec_conductivity()
    }

    /// Denominator of the shell conductance `Usb`: the summed layer
    /// resistances over the common conductivity denominator, times the
    /// scale factor that turns micrometres per conductivity unit into
    /// SI resistance.
    pub open spec fn spec_usb_den(self) -> int {
        100_000 * (self.inner_body.spec_thickness() * (self.insulator.spec_conductivity()
            * self.outer_body.spec_conductivity()) + self.insulator_thickness * (
        self.inner_body.spec_conductivity() * self.outer_body.spec_conductivity())
            + self.outer_body.spec_thickness() * (self.inner_body.spec_conductivity()
            * self.insulator.spec_conductivity()))
    }

    /// Overall shell conductance `Usb` in W/(m^2 K): the reciprocal of
    /// the series sum of thickness over conductivity for inner body,
    /// insulation and outer body, exact as a rational.
    pub fn usb(&self) -> (r: Rational)
        requires
            0 < self.insulator_thickness <= DIM_LIMIT,
        ensures
            r.num == self.spec_usb_num(),
            r.den == self.spec_usb_den(),
            r.wf(),
    {
        let kib = self.inner_body.conductivity() as i128;
        let kins = self.insulator.conductivity() as i128;
        let kob = self.outer_body.conductivity() as i128;
        let tib = self.inner_body.thickness() as i128;
        let tins = self.insulator_thickness as i128;
        let tob = self.outer_body.thickness() as i128;
        proof {
            assert(1 <= kib * kins * kob <= 10_000_000_000_000_000_000_000_000_000_000
                && 1 <= kins * kob <= 1_000_000_000_000_000_000_000 && 1 <= kib * kob
                <= 1_000_000_000_000_000_000_000 && 1 <= kib * kins
                <= 1_000_000_000_000_000_000_000) by (nonlinear_arith)
                requires
                    1_000_000_000 <= kib <= 20_000_000_000,
                    1_000_000_000 <= kins <= 20_000_000_000,
                    1_000_000_000 <= kob <= 20_000_000_000,
            ;
            assert(1 <= tib * (kins * kob) <= 100_000_000_000_000_000_000_000_000_000 && 1 <= tins
                * (kib * kob) <= 100_000_000_000_000_000_000_000_000_000 && 1 <= tob * (kib * kins)
                <= 100_000_000_000_000_000_000_000_000_000) by (nonlinear_arith)
                requires
                    1 <= tib <= 10_000_000,
                    1 <= tins <= 10_000_000,
                    1 <= tob <= 10_000_000,
                    1 <= kins * kob <= 1_000_000_000_000_000_000_000,
                    1 <= kib * kob <= 1_000_000_000_000_000_000_000,
                    1 <= kib * kins <= 1_000_000_000_000_000_000_000,
            ;
        }
        let num = kib * (kins * kob);
        let den = 100_000 * (tib * (kins * kob) + tins * (kib * kob) + tob * (kib * kins));
        proof {
            assert(kib * (kins * kob) == kib * kins * kob) by (nonlinear_arith);
        }
        Rational::new(num, den)
    }
}

/// Whether `t` is the model's predicted interior temperature for solar
/// power term `p`, shell loss term `s` and window area `aw` at window
/// heat-loss coefficient `u`: `t = Ambient + p / (s + u * aw)`, stated
/// by cross-multiplication. The three terms may be in any one common
/// scale.
pub open spec fn is_tio_at(t: Rational, p: int, s: int, aw: int, u: int) -> bool {
    &&& t.wf()
    &&& t.num * (s + u * aw) == (AMBIENT_C * (s + u * aw) + p) * t.den
}

/// More heat loss through the window means a lower equilibrium
/// temperature: for a fixed design (fixed collected power `p > 0`,
/// shell loss `s > 0` and window area `aw > 0`), the predicted interior
/// temperature is strictly decreasing in the heat-loss coefficient
/// `Uw`, and never increasing even when no power is collected.
pub proof fn lemma_tio_decreasing_in_uw(
    t1: Rational,
    t2: Rational,
    p: int,
    s: int,
    aw: int,
    u1: int,
    u2: int,
)
    requires
        p >= 0,
        s > 0,
        aw > 0,
        0 <= u1 < u2,
        is_tio_at(t1, p, s, aw, u1),
        is_tio_at(t2, p, s, aw, u2),
    ensures
        rat_le(t2, t1),
        p > 0 ==> rat_lt(t2, t1),
{
    let a = AMBIENT_C as int;
    let d1 = s + u1 * aw;
    let d2 = s + u2 * aw;
    assert(0 < d1 < d2) by (nonlinear_arith)
        requires
            s > 0,
            aw > 0,
            0 <= u1 < u2,
            d1 == s + u1 * aw,
            d2 == s + u2 * aw,
    ;
    // Cross-multiplying the two defining equations and cancelling the
    // common terms leaves the sign of p * (d1 - d2).
    assert(t2.num * t1.den * (d1 * d2) == (t2.num * d2) * (t1.den * d1)) by (nonlinear_arith);
    assert((t2.num * d2) * (t1.den * d1) == ((a * d2 + p) * t2.den) * (t1.den * d1))
        by (nonlinear_arith)
        requires
            t2.num * d2 == (a * d2 + p) * t2.den,
    ;
    assert(((a * d2 + p) * t2.den) * (t1.den * d1) == (t1.den * t2.den) * ((a * d2 + p) * d1))
        by (nonlinear_arith);
    assert(t1.num * t2.den * (d1 * d2) == (t1.num * d1) * (t2.den * d2)) by (nonlinear_arith);
    assert((t1.num * d1) * (t2.den * d2) == ((a * d1 + p) * t1.den) * (t2.den * d2))
        by (nonlinear_arith)
        requires
            t1.num * d1 == (a * d1 + p) * t1.den,
    ;
    assert(((a * d1 + p) * t1.den) * (t2.den * d2) == (t1.den * t2.den) * ((a * d1 + p) * d2))
        by (nonlinear_arith);
    assert((t2.num * t1.den - t1.num * t2.den) * (d1 * d2) == t2.num * t1.den * (d1 * d2) - t1.num
        * t2.den * (d1 * d2)) by (nonlinear_arith);
    assert((t1.den * t2.den) * ((a * d2 + p) * d1) - (t1.den * t2.den) * ((a * d1 + p) * d2) == (
    t1.den * t2.den) * (p * (d1 - d2))) by (nonlinear_arith);
    assert((t2.num * t1.den - t1.num * t2.den) * (d1 * d2) == (t1.den * t2.den) * (p * (d1 - d2)));
    assert(t2.num * t1.den <= t1.num * t2.den && (p > 0 ==> t2.num * t1.den < t1.num * t2.den))
        by (nonlinear_arith)
        requires
            (t2.num * t1.den - t1.num * t2.den) * (d1 * d2) == (t1.den * t2.den) * (p * (d1
                - d2)),
            0 < d1 < d2,
            t1.den > 0,
            t2.den > 0,
            p >= 0,
    ;
}

/// Largest magnitude of a rational's numerator or denominator accepted
/// by the scoring functions, so that their products fit in 128 bits.
pub const SCORE_INPUT_LIMIT: i128 = 1_000_000_000_000_000;

/// The minimization score of a design whose predicted interior
/// temperature is `tio` (degrees Celsius) and whose total cost is
/// `cost` (dollars): the distance from the target cooking temperature
/// plus four times the cost, exact over the supplied rationals. Lower
/// is better.
pub fn score(tio: &Rational, cost: &Rational) -> (r: Rational)
    requires
        tio.wf(),
        cost.wf(),
        -SCORE_INPUT_LIMIT <= tio.num <= SCORE_INPUT_LIMIT,
        tio.den <= SCORE_INPUT_LIMIT,
        -SCORE_INPUT_LIMIT <= cost.num <= SCORE_INPUT_LIMIT,
        cost.den <= SCORE_INPUT_LIMIT,
    ensures
        r.wf(),
        r.den == tio.den * cost.den,
        r.num == vstd::math::abs(crate::GOAL_TIO_C * tio.den - tio.num) * cost.den + 4 * cost.num
            * tio.den,
{
    let g = crate::GOAL_TIO_C as i128;
    proof {
        assert(0 < g * tio.den <= 1_000_000_000_000_000_000 && 0 < tio.den * cost.den
            <= 1_000_000_000_000_000_000_000_000_000_000
            && -10_000_000_000_000_000_000_000_000_000_000 <= 4 * cost.num * tio.den
            <= 10_000_000_000_000_000_000_000_000_000_000) by (nonlinear_arith)
            requires
                0 < g <= 1000,
                0 < tio.den <= 1_000_000_000_000_000,
                0 < cost.den <= 1_000_000_000_000_000,
                -1_000_000_000_000_000 <= cost.num <= 1_000_000_000_000_000,
        ;
    }
    let diff = g * tio.den - tio.num;
    let dist = if diff < 0 {
        -diff
    } else {
        diff
    };
    proof {
        assert(0 <= dist * cost.den <= 10_000_000_000_000_000_000_000_000_000_000_000)
            by (nonlinear_arith)
            requires
                0 <= dist <= 2_000_000_000_000_000_000,
                0 < cost.den <= 1_000_000_000_000_000,
        ;
        assert(dist == vstd::math::abs(g * tio.den - tio.num));
    }
    Rational::new(dist * cost.den + 4 * cost.num * tio.den, tio.den * cost.den)
}

/// The cost-normalized performance index of a design whose predicted
/// interior temperature is `tio` (degrees Celsius) and whose total
/// cost is `cost` (dollars, strictly positive): degrees gained over
/// ambient per dollar spent, exact over the supplied rationals. Higher
/// is better; a secondary reporting metric, not the optimization
/// objective.
pub fn performance_index(tio: &Rational, cost: &Rational) -> (r: Rational)
    requires
        tio.wf(),
        cost.wf(),
        cost.num > 0,
        -SCORE_INPUT_LIMIT <= tio.num <= SCORE_INPUT_LIMIT,
        tio.den <= SCORE_INPUT_LIMIT,
        cost.num <= SCORE_INPUT_LIMIT,
        cost.den <= SCORE_INPUT_LIMIT,
    ensures
        r.wf(),
        r.den == cost.num * tio.den,
        r.num == (tio.num - AMBIENT_C * tio.den) * cost.den,
{
    proof {
        assert(0 < cost.num * tio.den <= 1_000_000_000_000_000_000_000_000_000_000
            && -10_000_000_000_000_000_000_000_000_000_000_000 <= (tio.num - AMBIENT_C as i128
            * tio.den) * cost.den <= 10_000_000_000_000_000_000_000_000_000_000_000
            && -10_000_000_000_000_000_000_000_000_000_000_000 <= AMBIENT_C as i128 * tio.den
            <= 10_000_000_000_000_000_000_000_000_000_000_000) by (nonlinear_arith)
            requires
                0 < tio.den <= 1_000_000_000_000_000,
                0 < cost.num <= 1_000_000_000_000_000,
                0 < cost.den <= 1_000_000_000_000_000,
                -1_000_000_000_000_000 <= tio.num <= 1_000_000_000_000_000,
        ;
    }
    Rational::new((tio.num - (AMBIENT_C as i128) * tio.den) * cost.den, cost.num * tio.den)
}

/// A degenerate design is never valid: non-positive height, insulation
/// thickness or reflector multiplier, or a zero reflector count, each
/// force `ok` to be false, whatever the rest of the design holds.
pub proof fn lemma_ok_rejects_degenerate(d: Design)
    requires
        d.h <= 0 || d.insulator_thickness <= 0 || d.reflector_count == 0 || d.reflector_ml <= 0,
    ensures
        !d.spec_ok(),
{
}

} // verus!
