//! The cost model: six additive terms, each a catalog price times a
//! derived area or volume, and the laws that total cost strictly grows
//! with each geometric dimension.
//!
//! The insulation is priced as a volumetric shell between two nested
//! boxes: the inner box wraps the chamber in the inner body sheet, and
//! the outer box adds the insulation thickness on every lateral side
//! (twice across a width) and once on top. The same nesting convention
//! feeds the outer shell's surface. Costs are exact integers at
//! `COST_SCALE` per dollar.

use vstd::prelude::*;

use crate::design::Design;
use crate::design::DIM_LIMIT;
use crate::design::ML_LIMIT;

verus! {

/// Scale of cost values: one dollar is `4 * 10^28`. The factor of four
/// keeps the trapezoidal reflector area exact; the rest is the price
/// scale times the square-micrometre area scale.
pub const COST_SCALE: i128 = 40_000_000_000_000_000_000_000_000_000;

impl Design {
    /// Volume of the insulation shell: outer nested box less inner
    /// nested box, in cubic micrometres.
    pub open spec fn spec_insulation_volume(self) -> int {
        let ib = self.inner_body.spec_thickness();
        (self.h + ib + self.insulator_thickness) * ((self.l_and_w + 2 * ib + 2
            * self.insulator_thickness) * (self.l_and_w + 2 * ib + 2 * self.insulator_thickness))
            - (self.h + ib) * ((self.l_and_w + 2 * ib) * (self.l_and_w + 2 * ib))
    }

    /// Full exterior surface area of the nested box, in square
    /// micrometres: four sides plus top and bottom of a square box.
    pub open spec fn spec_outer_surface(self) -> int {
        let hh = self.h + self.inner_body.spec_thickness() + self.insulator_thickness;
        let ll = self.l_and_w + 2 * self.inner_body.spec_thickness() + 2
            * self.insulator_thickness + 2 * self.outer_body.spec_thickness();
        4 * (hh * ll) + 2 * (ll * ll)
    }

    /// Absorber coating cost: priced over the absorber assembly area.
    pub open spec fn spec_absorber_cost(self) -> int {
        self.absorber.spec_price_per_m2() * self.spec_asb()
    }

    /// Inner shell cost: priced over the absorber assembly area.
    pub open spec fn spec_inner_body_cost(self) -> int {
        self.inner_body.spec_price_per_m2() * self.spec_asb()
    }

    /// Insulation cost: priced over the shell volume.
    pub open spec fn spec_insulator_cost(self) -> int {
        self.insulator.spec_price_per_m3() * self.spec_insulation_volume()
    }

    /// Outer shell cost: priced over the exterior surface less the
    /// window opening, which is not made of shell material.
    pub open spec fn spec_outer_body_cost(self) -> int {
        self.outer_body.spec_price_per_m2() * (self.spec_outer_surface() - self.spec_aw())
    }

    /// Window cost: priced over the window opening.
    pub open spec fn spec_window_cost(self) -> int {
        self.window.spec_price_per_m2() * self.spec_aw()
    }

    /// Reflector cost: priced over the total reflecting area.
    pub open spec fn spec_reflector_cost(self) -> int {
        self.reflectors.spec_price_per_m2() * self.reflector_type.spec_area(
            self.reflector_ml as int,
            self.l_and_w as int,
            self.reflector_count as int,
        )
    }

    /// Total material cost, at `COST_SCALE` per dollar: the area-priced
    /// terms carry a factor of four million to meet the volume term's
    /// scale, the volume term a factor of four, and the reflector term
    /// none.
    pub open spec fn spec_total_cost(self) -> int {
        4_000_000 * (self.spec_absorber_cost() + self.spec_inner_body_cost()
            + self.spec_outer_body_cost() + self.spec_window_cost()) + 4
            * self.spec_insulator_cost() + self.spec_reflector_cost()
    }

    /// Volume of the insulation shell, in cubic micrometres.
    fn insulation_volume(&self) -> (r: i128)
        requires
            0 <= self.l_and_w <= DIM_LIMIT,
            0 <= self.h <= DIM_LIMIT,
            0 <= self.insulator_thickness <= DIM_LIMIT,
        ensures
            r == self.spec_insulation_volume(),
            -40_000_000_000_000_000_000_000 <= r <= 40_000_000_000_000_000_000_000,
    {
        let ib = self.inner_body.thickness() as i128;
        let h = self.h as i128;
        let l = self.l_and_w as i128;
        let t = self.insulator_thickness as i128;
        let oh = h + ib + t;
        let ol = l + 2 * ib + 2 * t;
        let ih = h + ib;
        let il = l + 2 * ib;
        proof {
            assert(0 <= ol * ol <= 1_000_000_000_000_000 && 0 <= oh * (ol * ol)
                <= 30_000_000_000_000_000_000_000 && 0 <= il * il <= 1_000_000_000_000_000 && 0
                <= ih * (il * il) <= 30_000_000_000_000_000_000_000) by (nonlinear_arith)
                requires
                    0 < oh <= 21_000_000,
                    0 <= ol <= 31_000_000,
                    0 < ih <= 11_000_000,
                    0 <= il <= 11_000_000,
            ;
        }
        oh * (ol * ol) - ih * (il * il)
    }

    /// Full exterior surface area of the nested box, in square
    /// micrometres.
    fn outer_surface(&self) -> (r: i128)
        requires
            0 <= self.l_and_w <= DIM_LIMIT,
            0 <= self.h <= DIM_LIMIT,
            0 <= self.insulator_thickness <= DIM_LIMIT,
        ensures
            r == self.spec_outer_surface(),
            0 <= r <= 5_000_000_000_000_000,
    {
        let hh = self.h as i128 + self.inner_body.thickness() as i128 + self.insulator_thickness
            as i128;
        let ll = self.l_and_w as i128 + 2 * (self.inner_body.thickness() as i128) + 2 * (
        self.insulator_thickness as i128) + 2 * (self.outer_body.thickness() as i128);
        proof {
            assert(0 <= hh * ll <= 700_000_000_000_000 && 0 <= ll * ll <= 1_100_000_000_000_000)
                by (nonlinear_arith)
                requires
                    0 <= hh <= 21_000_000,
                    0 <= ll <= 32_000_000,
            ;
        }
        4 * (hh * ll) + 2 * (ll * ll)
    }

    /// Total material cost, exact at `COST_SCALE` per dollar.
    pub fn total_cost(&self) -> (r: i128)
        requires
            0 <= self.l_and_w <= DIM_LIMIT,
            0 <= self.h <= DIM_LIMIT,
            0 <= self.insulator_thickness <= DIM_LIMIT,
            0 <= self.reflector_ml <= ML_LIMIT,
        ensures
            r == self.spec_total_cost(),
    {
        let area = self.asb();
        let area64 = area as i64;
        let absorber_cost = self.absorber.cost_per_m2(area64);
        let inner_body_cost = self.inner_body.cost_per_m2(area64);
        let volume = self.insulation_volume();
        let insulator_cost = self.insulator.cost_per_m3(volume);
        let aw = self.aw();
        let surface = self.outer_surface();
        let outer_area = surface - aw;
        let outer_body_cost = self.outer_body.cost_per_m2(outer_area as i64);
        let window_cost = self.window.cost_per_m2(aw as i64);
        let reflector_area = self.reflector_type.area(
            self.reflector_ml,
            self.l_and_w,
            self.reflector_count,
        );
        let reflector_price = self.reflectors.price_per_m2() as i128;
        proof {
            assert(0 <= absorber_cost <= 200_000_000_000_000_000_000_000_000 && 0
                <= inner_body_cost <= 200_000_000_000_000_000_000_000_000)
                by (nonlinear_arith)
                requires
                    0 <= area64 <= 500_000_000_000_000,
                    absorber_cost == self.absorber.spec_price_per_m2() * area64,
                    inner_body_cost == self.inner_body.spec_price_per_m2() * area64,
                    0 <= self.absorber.spec_price_per_m2() <= 400_000_000_000,
                    0 <= self.inner_body.spec_price_per_m2() <= 400_000_000_000,
            ;
            assert(-10_000_000_000_000_000_000_000_000_000_000_000_000 <= insulator_cost
                <= 10_000_000_000_000_000_000_000_000_000_000_000_000) by (nonlinear_arith)
                requires
                    insulator_cost == self.insulator.spec_price_per_m3() * volume,
                    0 <= self.insulator.spec_price_per_m3() <= 200_000_000_000_000,
                    -40_000_000_000_000_000_000_000 <= volume <= 40_000_000_000_000_000_000_000,
            ;
            assert(-200_000_000_000_000_000_000_000_000 <= outer_body_cost
                <= 200_000_000_000_000_000_000_000_000 && 0 <= window_cost
                <= 200_000_000_000_000_000_000_000_000) by (nonlinear_arith)
                requires
                    outer_body_cost == self.outer_body.spec_price_per_m2() * (outer_area as i64),
                    window_cost == self.window.spec_price_per_m2() * (aw as i64),
                    0 <= self.outer_body.spec_price_per_m2() <= 400_000_000_000,
                    0 <= self.window.spec_price_per_m2() <= 400_000_000_000,
                    -6_000_000_000_000_000 <= outer_area as i64 <= 6_000_000_000_000_000,
                    0 <= aw as i64 <= 100_000_000_000_000,
            ;
            assert(-90_000_000_000_000_000_000_000_000_000_000_000_000 <= reflector_price
                * reflector_area <= 90_000_000_000_000_000_000_000_000_000_000_000_000)
                by (nonlinear_arith)
                requires
                    0 <= reflector_price <= 300_000_000_000,
                    -300_000_000_000_000_000_000_000_000 <= reflector_area
                        <= 300_000_000_000_000_000_000_000_000,
            ;
        }
        let reflector_cost = reflector_price * reflector_area;
        4_000_000 * (absorber_cost + inner_body_cost + outer_body_cost + window_cost) + 4
            * insulator_cost + reflector_cost
    }
}

/// `0 <= p` and `a <= b` give `p * a <= p * b`.
proof fn lemma_mul_mono_left(p: int, a: int, b: int) by (nonlinear_arith)
    requires
        0 <= p,
        a <= b,
    ensures
        p * a <= p * b,
{
}

/// `1 <= p` and `a < b` give `p * a < p * b`.
proof fn lemma_mul_strict_left(p: int, a: int, b: int) by (nonlinear_arith)
    requires
        1 <= p,
        a < b,
    ensures
        p * a < p * b,
{
}

/// Nonnegative factors under `<=` multiply to `<=`.
proof fn lemma_mul_mono_both(x1: int, x2: int, y1: int, y2: int) by (nonlinear_arith)
    requires
        0 <= x1 <= x2,
        0 <= y1 <= y2,
    ensures
        x1 * y1 <= x2 * y2,
{
}

/// A box grown in every direction does not shrink: the nested-box
/// volume `(hbase + t) * (lbase + 2t)^2` is monotone in `t`.
proof fn lemma_box_volume_monotone(hbase: int, lbase: int, t1: int, t2: int)
    requires
        0 < hbase,
        0 <= lbase,
        0 <= t1 <= t2,
    ensures
        (hbase + t1) * ((lbase + 2 * t1) * (lbase + 2 * t1)) <= (hbase + t2) * ((lbase + 2 * t2) * (
        lbase + 2 * t2)),
{
    lemma_mul_mono_both(lbase + 2 * t1, lbase + 2 * t2, lbase + 2 * t1, lbase + 2 * t2);
    lemma_mul_mono_both(
        hbase + t1,
        hbase + t2,
        (lbase + 2 * t1) * (lbase + 2 * t1),
        (lbase + 2 * t2) * (lbase + 2 * t2),
    );
}

/// Total cost strictly grows with the insulation thickness, whatever
/// the material combination: the outer shell must cover a larger box,
/// and the insulation fill never gets cheaper.
pub proof fn lemma_cost_increasing_in_insulation(d1: Design, d2: Design)
    requires
        d2 == (Design { insulator_thickness: d2.insulator_thickness, ..d1 }),
        0 < d1.l_and_w,
        0 < d1.h,
        0 <= d1.insulator_thickness < d2.insulator_thickness,
    ensures
        d1.spec_total_cost() < d2.spec_total_cost(),
{
    let ib = d1.inner_body.spec_thickness();
    let ob = d1.outer_body.spec_thickness();
    assert(ib >= 1 && ob >= 1);
    // The insulation fill never gets cheaper.
    lemma_box_volume_monotone(
        d1.h + ib,
        d1.l_and_w + 2 * ib,
        d1.insulator_thickness as int,
        d2.insulator_thickness as int,
    );
    assert(d1.spec_insulation_volume() <= d2.spec_insulation_volume());
    assert(d1.insulator.spec_price_per_m3() >= 0);
    lemma_mul_mono_left(
        d1.insulator.spec_price_per_m3(),
        d1.spec_insulation_volume(),
        d2.spec_insulation_volume(),
    );
    assert(d1.spec_insulator_cost() <= d2.spec_insulator_cost());
    // The outer shell strictly grows.
    let hh1 = d1.h + ib + d1.insulator_thickness;
    let hh2 = d1.h + ib + d2.insulator_thickness;
    let ll1 = d1.l_and_w + 2 * ib + 2 * d1.insulator_thickness + 2 * ob;
    let ll2 = d1.l_and_w + 2 * ib + 2 * d2.insulator_thickness + 2 * ob;
    assert(0 < hh1 < hh2 && 0 < ll1 < ll2);
    assert(hh1 * ll1 < hh2 * ll2 && ll1 * ll1 < ll2 * ll2) by (nonlinear_arith)
        requires
            0 < hh1 < hh2,
            0 < ll1 < ll2,
    ;
    assert(d1.spec_outer_surface() < d2.spec_outer_surface());
    assert(d1.outer_body.spec_price_per_m2() >= 1);
    lemma_mul_strict_left(
        d1.outer_body.spec_price_per_m2(),
        d1.spec_outer_surface() - d1.spec_aw(),
        d2.spec_outer_surface() - d2.spec_aw(),
    );
    assert(d1.spec_outer_body_cost() < d2.spec_outer_body_cost());
    // Every other term is untouched.
    assert(d1.spec_absorber_cost() == d2.spec_absorber_cost());
    assert(d1.spec_inner_body_cost() == d2.spec_inner_body_cost());
    assert(d1.spec_window_cost() == d2.spec_window_cost());
    assert(d1.spec_reflector_cost() == d2.spec_reflector_cost());
}

/// Total cost strictly grows with the chamber side length, whatever
/// the material combination. For trapezoidal reflectors the multiplier
/// must be at least one: below that the nominal reflecting area is
/// negative and shrinks as the window grows.
pub proof fn lemma_cost_increasing_in_side(d1: Design, d2: Design)
    requires
        d2 == (Design { l_and_w: d2.l_and_w, ..d1 }),
        0 < d1.l_and_w < d2.l_and_w,
        0 < d1.h,
        0 <= d1.insulator_thickness,
        0 <= d1.reflector_ml,
        d1.reflector_type is Trapezoidal ==> d1.reflector_ml >= 1000,
    ensures
        d1.spec_total_cost() < d2.spec_total_cost(),
{
    let ib = d1.inner_body.spec_thickness();
    let ob = d1.outer_body.spec_thickness();
    let l1 = d1.l_and_w as int;
    let l2 = d2.l_and_w as int;
    let h = d1.h as int;
    let t = d1.insulator_thickness as int;
    assert(ib >= 1 && ob >= 1);
    // The absorber assembly strictly grows.
    assert(d1.spec_asb() < d2.spec_asb()) by (nonlinear_arith)
        requires
            d1.spec_asb() == l1 * l1 + 4 * h * l1,
            d2.spec_asb() == l2 * l2 + 4 * h * l2,
            0 < l1 < l2,
            0 < h,
    ;
    assert(d1.absorber.spec_price_per_m2() >= 1);
    lemma_mul_strict_left(d1.absorber.spec_price_per_m2(), d1.spec_asb(), d2.spec_asb());
    assert(d1.spec_absorber_cost() < d2.spec_absorber_cost());
    assert(d1.inner_body.spec_price_per_m2() >= 0);
    lemma_mul_mono_left(d1.inner_body.spec_price_per_m2(), d1.spec_asb(), d2.spec_asb());
    assert(d1.spec_inner_body_cost() <= d2.spec_inner_body_cost());
    // The window strictly grows.
    assert(d1.spec_aw() < d2.spec_aw()) by (nonlinear_arith)
        requires
            d1.spec_aw() == l1 * l1,
            d2.spec_aw() == l2 * l2,
            0 < l1 < l2,
    ;
    assert(d1.window.spec_price_per_m2() >= 0);
    lemma_mul_mono_left(d1.window.spec_price_per_m2(), d1.spec_aw(), d2.spec_aw());
    assert(d1.spec_window_cost() <= d2.spec_window_cost());
    // The exterior surface outgrows the window opening.
    let hh = h + ib + t;
    let c = 2 * ib + 2 * t + 2 * ob;
    assert(d1.spec_outer_surface() - d1.spec_aw() <= d2.spec_outer_surface() - d2.spec_aw())
        by (nonlinear_arith)
        requires
            d1.spec_outer_surface() == 4 * (hh * (l1 + c)) + 2 * ((l1 + c) * (l1 + c)),
            d2.spec_outer_surface() == 4 * (hh * (l2 + c)) + 2 * ((l2 + c) * (l2 + c)),
            d1.spec_aw() == l1 * l1,
            d2.spec_aw() == l2 * l2,
            0 < l1 < l2,
            0 < hh,
            0 <= c,
    ;
    assert(d1.outer_body.spec_price_per_m2() >= 0);
    lemma_mul_mono_left(
        d1.outer_body.spec_price_per_m2(),
        d1.spec_outer_surface() - d1.spec_aw(),
        d2.spec_outer_surface() - d2.spec_aw(),
    );
    assert(d1.spec_outer_body_cost() <= d2.spec_outer_body_cost());
    // The insulation shell does not shrink: the outer cross-section
    // gains at least as much as the inner one, under a taller cap.
    let oh = h + ib + t;
    let ih = h + ib;
    let b1 = l1 + 2 * ib + 2 * t;
    let b2 = l2 + 2 * ib + 2 * t;
    let c1 = l1 + 2 * ib;
    let c2 = l2 + 2 * ib;
    assert(b2 * b2 - b1 * b1 >= c2 * c2 - c1 * c1 && c2 * c2 - c1 * c1 >= 0) by (nonlinear_arith)
        requires
            0 < c1 < c2,
            b1 == c1 + 2 * t,
            b2 == c2 + 2 * t,
            0 <= t,
    ;
    lemma_mul_mono_both(ih, oh, c2 * c2 - c1 * c1, b2 * b2 - b1 * b1);
    assert(oh * (b2 * b2) - oh * (b1 * b1) == oh * (b2 * b2 - b1 * b1)) by (nonlinear_arith);
    assert(ih * (c2 * c2) - ih * (c1 * c1) == ih * (c2 * c2 - c1 * c1)) by (nonlinear_arith);
    assert(d1.spec_insulation_volume() <= d2.spec_insulation_volume());
    assert(d1.insulator.spec_price_per_m3() >= 0);
    lemma_mul_mono_left(
        d1.insulator.spec_price_per_m3(),
        d1.spec_insulation_volume(),
        d2.spec_insulation_volume(),
    );
    assert(d1.spec_insulator_cost() <= d2.spec_insulator_cost());
    // The reflecting area does not shrink.
    let ml = d1.reflector_ml as int;
    let n = d1.reflector_count as int;
    if d1.reflector_type is Rectangular {
        assert(4000 * ml * (l1 * l1) * n <= 4000 * ml * (l2 * l2) * n) by (nonlinear_arith)
            requires
                0 < l1 < l2,
                0 <= ml,
                0 <= n,
        ;
    } else {
        assert(((ml * l1) * (ml * l1) - l1 * l1 * 1_000_000) * n <= ((ml * l2) * (ml * l2) - l2
            * l2 * 1_000_000) * n) by (nonlinear_arith)
            requires
                0 < l1 < l2,
                1000 <= ml,
                0 <= n,
        ;
    }
    assert(d1.reflector_type.spec_area(ml, l1, n) <= d1.reflector_type.spec_area(ml, l2, n));
    assert(d1.reflectors.spec_price_per_m2() >= 0);
    lemma_mul_mono_left(
        d1.reflectors.spec_price_per_m2(),
        d1.reflector_type.spec_area(ml, l1, n),
        d1.reflector_type.spec_area(ml, l2, n),
    );
    assert(d1.spec_reflector_cost() <= d2.spec_reflector_cost());
}

/// Total cost strictly grows with the chamber height, whatever the
/// material combination: the absorber assembly and the shells all grow
/// with the chamber's side walls.
pub proof fn lemma_cost_increasing_in_height(d1: Design, d2: Design)
    requires
        d2 == (Design { h: d2.h, ..d1 }),
        0 < d1.l_and_w,
        0 < d1.h < d2.h,
        0 <= d1.insulator_thickness,
    ensures
        d1.spec_total_cost() < d2.spec_total_cost(),
{
    let ib = d1.inner_body.spec_thickness();
    let ob = d1.outer_body.spec_thickness();
    let l = d1.l_and_w as int;
    let h1 = d1.h as int;
    let h2 = d2.h as int;
    let t = d1.insulator_thickness as int;
    assert(ib >= 1 && ob >= 1);
    // The absorber assembly strictly grows with the side walls.
    assert(d1.spec_asb() < d2.spec_asb()) by (nonlinear_arith)
        requires
            d1.spec_asb() == l * l + 4 * h1 * l,
            d2.spec_asb() == l * l + 4 * h2 * l,
            0 < l,
            h1 < h2,
    ;
    assert(d1.absorber.spec_price_per_m2() >= 1);
    lemma_mul_strict_left(d1.absorber.spec_price_per_m2(), d1.spec_asb(), d2.spec_asb());
    assert(d1.spec_absorber_cost() < d2.spec_absorber_cost());
    assert(d1.inner_body.spec_price_per_m2() >= 0);
    lemma_mul_mono_left(d1.inner_body.spec_price_per_m2(), d1.spec_asb(), d2.spec_asb());
    assert(d1.spec_inner_body_cost() <= d2.spec_inner_body_cost());
    // The insulation shell does not shrink: a taller box adds the same
    // slab to outer and inner volume, and the outer cross-section is
    // the larger one.
    assert(d1.spec_insulation_volume() <= d2.spec_insulation_volume()) by (nonlinear_arith)
        requires
            d1.spec_insulation_volume() == (h1 + ib + t) * ((l + 2 * ib + 2 * t) * (l + 2 * ib + 2
                * t)) - (h1 + ib) * ((l + 2 * ib) * (l + 2 * ib)),
            d2.spec_insulation_volume() == (h2 + ib + t) * ((l + 2 * ib + 2 * t) * (l + 2 * ib + 2
                * t)) - (h2 + ib) * ((l + 2 * ib) * (l + 2 * ib)),
            h1 < h2,
            0 <= t,
            0 <= l + 2 * ib,
    ;
    assert(d1.insulator.spec_price_per_m3() >= 0);
    lemma_mul_mono_left(
        d1.insulator.spec_price_per_m3(),
        d1.spec_insulation_volume(),
        d2.spec_insulation_volume(),
    );
    assert(d1.spec_insulator_cost() <= d2.spec_insulator_cost());
    // The exterior surface grows with the walls; the window is on top
    // and unchanged.
    assert(d1.spec_outer_surface() <= d2.spec_outer_surface()) by (nonlinear_arith)
        requires
            d1.spec_outer_surface() == 4 * ((h1 + ib + t) * (l + 2 * ib + 2 * t + 2 * ob)) + 2 * ((l
                + 2 * ib + 2 * t + 2 * ob) * (l + 2 * ib + 2 * t + 2 * ob)),
            d2.spec_outer_surface() == 4 * ((h2 + ib + t) * (l + 2 * ib + 2 * t + 2 * ob)) + 2 * ((l
                + 2 * ib + 2 * t + 2 * ob) * (l + 2 * ib + 2 * t + 2 * ob)),
            h1 < h2,
            0 <= l + 2 * ib + 2 * t + 2 * ob,
    ;
    assert(d1.outer_body.spec_price_per_m2() >= 0);
    lemma_mul_mono_left(
        d1.outer_body.spec_price_per_m2(),
        d1.spec_outer_surface() - d1.spec_aw(),
        d2.spec_outer_surface() - d2.spec_aw(),
    );
    assert(d1.spec_outer_body_cost() <= d2.spec_outer_body_cost());
    // Window and reflectors are untouched.
    assert(d1.spec_window_cost() == d2.spec_window_cost());
    assert(d1.spec_reflector_cost() == d2.spec_reflector_cost());
}

} // verus!
