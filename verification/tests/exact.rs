//! Unit tests of the exact integer/rational model: catalog data,
//! trend-line fitting, validity, cost, enumeration, ranking and the
//! grid.

use std::collections::HashSet;

use solar_oven::design;
use solar_oven::design::Design;
use solar_oven::errors::APIError;
use solar_oven::errors::ModelError;
use solar_oven::graph::GraphDataResponse;
use solar_oven::materials::Absorber;
use solar_oven::materials::BodyMaterial;
use solar_oven::materials::Insulator;
use solar_oven::materials::ReflectiveMaterial;
use solar_oven::oven::Oven;
use solar_oven::ranking;
use solar_oven::rational::Rational;
use solar_oven::reflectors::ReflectorType;
use solar_oven::trendline;
use solar_oven::trendline::LNTrendline;
use solar_oven::window::WindowMaterial;

fn fixture() -> Design {
    Design {
        absorber: Absorber::BlackConstructionPaper,
        window: WindowMaterial::SingleMylar,
        l_and_w: 85_000,
        h: 100_000,
        outer_body: BodyMaterial::Cardboard,
        inner_body: BodyMaterial::Cardboard,
        insulator: Insulator::Newspaper,
        insulator_thickness: 135_000,
        reflector_count: 4,
        reflector_type: ReflectorType::Rectangular,
        reflector_ml: 2000,
        reflectors: ReflectiveMaterial::TinFoil,
    }
}

#[test]
fn catalog_sizes() {
    assert_eq!(Absorber::variants().len(), 2);
    assert_eq!(WindowMaterial::variants().len(), 2);
    assert_eq!(BodyMaterial::variants().len(), 2);
    assert_eq!(Insulator::variants().len(), 5);
    assert_eq!(ReflectorType::variants().len(), 2);
    assert_eq!(ReflectiveMaterial::variants().len(), 6);
}

#[test]
fn calibration_tables() {
    let single = WindowMaterial::SingleMylar.uws();
    assert_eq!(single.len(), 6);
    assert_eq!(single[0], (1010, 66));
    assert_eq!(single[5], (4011, 204));
    let double = WindowMaterial::DoubleMylar.uws();
    assert_eq!(double[0], (488, 66));
    assert_eq!(double[5], (1935, 204));
    let line = WindowMaterial::SingleMylar.uw_line();
    assert_eq!(line.coefficient, 10_050_929_390);
    assert_eq!(line.intercept, -17_000_735_190);
}

#[test]
fn two_point_fit_is_exact_interpolation() {
    // the line through (1, 3) and (2, 5) is y = 2x + 1
    let points = vec![(1_000_000i64, 3_000_000i64), (2_000_000, 5_000_000)];
    let line = trendline::fit(&points).unwrap();
    // slope 2: num / den == 2
    assert_eq!(line.coefficient.num, 2 * line.coefficient.den);
    // intercept 1: num / den == 1
    assert_eq!(line.intercept.num, 1_000_000 * line.intercept.den);
    // and the line passes through both points exactly
    for (x, y) in [(1_000_000i128, 3_000_000i128), (2_000_000, 5_000_000)] {
        let lhs = line.coefficient.num * x * line.intercept.den + line.intercept.num
            * line.coefficient.den;
        let rhs = y * line.coefficient.den * line.intercept.den;
        assert_eq!(lhs, rhs);
    }
}

#[test]
fn fit_is_order_invariant() {
    let d = fixture();
    let samples: Vec<(i64, i64)> = d.window.uws().iter().map(|p| (p.0 * 100, p.1 * 1000)).collect();
    let mut reversed = samples.clone();
    reversed.reverse();
    let a = trendline::fit(&samples).unwrap();
    let b = trendline::fit(&reversed).unwrap();
    assert_eq!(a, b);
}

#[test]
fn fit_rejects_degenerate_samples() {
    assert_eq!(trendline::fit(&vec![]), Err(ModelError::Regression));
    assert_eq!(trendline::fit(&vec![(5, 5)]), Err(ModelError::Regression));
    // all x equal: vertical data, no slope
    assert_eq!(trendline::fit(&vec![(7, 1), (7, 2), (7, 3)]), Err(ModelError::Regression));
}

#[test]
fn intersection_of_calibration_lines() {
    // y = 2 ln x and y = 1 (slope 0) meet at y = 1
    let a = LNTrendline { coefficient: 200_000_000, intercept: 0 };
    let b = LNTrendline { coefficient: 0, intercept: 100_000_000 };
    let y = a.y_intercept(&b).unwrap();
    // the meeting point's y-value is 1, i.e. LINE_SCALE in stored units
    assert_eq!(y.num, 100_000_000 * y.den);
    // parallel lines never meet
    let c = LNTrendline { coefficient: 200_000_000, intercept: 5 };
    assert_eq!(a.y_intercept(&c), Err(ModelError::NoIntersection));
    assert_eq!(a.x_intercept_ln(&c), Err(ModelError::NoIntersection));
    // ln of the x-intercept of y = 2 ln x and y = 1 is 1/2
    let x = a.x_intercept_ln(&b).unwrap();
    assert_eq!(2 * x.num, x.den);
}

#[test]
fn validity_rejects_degenerate_designs() {
    let good = Design { l_and_w: 100_000, h: 100_000, ..fixture() };
    assert!(good.ok());
    assert!(!Design { h: 0, ..good }.ok());
    assert!(!Design { h: -5, ..good }.ok());
    assert!(!Design { insulator_thickness: 0, ..good }.ok());
    assert!(!Design { reflector_count: 0, ..good }.ok());
    assert!(!Design { reflector_ml: 0, ..good }.ok());
    assert!(!Design { reflector_ml: -1, ..good }.ok());
    // a chamber below one litre is rejected as well
    assert!(!Design { l_and_w: 10_000, ..good }.ok());
}

#[test]
fn chamber_geometry() {
    let d = fixture();
    assert_eq!(d.chamber_volume(), 85_000i128 * 85_000 * 100_000);
    assert_eq!(d.aw(), 85_000i128 * 85_000);
    assert_eq!(d.asb(), 85_000i128 * 85_000 + 4 * 100_000 * 85_000);
}

#[test]
fn shell_conductance() {
    let d = fixture();
    let u = d.usb();
    // Usb = 1 / (0.004/0.064 + 0.135/0.123 + 0.004/0.064), about 0.82 W/(m^2 K)
    let value = u.num as f64 / u.den as f64;
    let expected = 1.0f64 / (0.004 / 0.064 + 0.135 / 0.123 + 0.004 / 0.064);
    assert!((value - expected).abs() < 1e-12);
}

#[test]
fn gain_of_unit_mirror() {
    // one perfectly reflective panel as long as the window, tilted to a
    // right angle: the gain is exactly 2
    let g = ReflectorType::Rectangular.calc_gain(1, 10_000, 1000, &Rational::new(1, 1));
    assert_eq!(g.num, 2 * g.den);
    // the trapezoid with the same parameters gains the extra factor 2
    let t = ReflectorType::Trapezoidal.calc_gain(1, 10_000, 1000, &Rational::new(1, 1));
    assert_eq!(t.num, 3 * t.den);
}

#[test]
fn reflector_area_scale() {
    // one rectangular panel, multiplier one, on a one-metre window is
    // exactly one square metre
    let r = ReflectorType::Rectangular.area(1000, 1_000_000, 1);
    assert_eq!(r, solar_oven::reflectors::REFLECTOR_AREA_SCALE);
    // a trapezoidal panel with multiplier one degenerates to area zero
    let t = ReflectorType::Trapezoidal.area(1000, 1_000_000, 4);
    assert_eq!(t, 0);
}

#[test]
fn cost_grows_with_each_dimension() {
    let base = fixture();
    let thicker = Design { insulator_thickness: 136_000, ..base };
    let wider = Design { l_and_w: 86_000, ..base };
    let taller = Design { h: 101_000, ..base };
    assert!(base.total_cost() < thicker.total_cost());
    assert!(base.total_cost() < wider.total_cost());
    assert!(base.total_cost() < taller.total_cost());
}

#[test]
fn scoring() {
    // a design that hits the target exactly is scored four times its cost
    let tio = Rational::from_int(solar_oven::GOAL_TIO_C);
    let cost = Rational::new(5, 1);
    let s = design::score(&tio, &cost);
    assert_eq!(s.num, 20 * s.den);
    // ambient temperature earns a performance index of zero
    let p = design::performance_index(&Rational::from_int(21), &cost);
    assert_eq!(p.num, 0);
    // twenty degrees over ambient for ten dollars is two per dollar
    let p2 = design::performance_index(&Rational::from_int(41), &Rational::from_int(10));
    assert_eq!(p2.num, 2 * p2.den);
}

#[test]
fn enumeration_covers_the_whole_space() {
    let all = solar_oven::oven::variants();
    assert_eq!(all.len(), 3840);
    let mut seen: HashSet<Oven> = HashSet::new();
    for (oven, init) in &all {
        assert_eq!(*init, [100_000, 100_000, 3000]);
        assert!((1..=4).contains(&oven.reflector_number));
        assert!(seen.insert(*oven));
    }
    assert_eq!(seen.len(), 3840);
    // the first configuration takes the first variant of every category
    assert_eq!(all[0].0, Oven {
        abs: Absorber::BlackConstructionPaper,
        window: WindowMaterial::SingleMylar,
        inner_body: BodyMaterial::Cardboard,
        outer_body: BodyMaterial::Cardboard,
        insulator: Insulator::Newspaper,
        reflector_type: ReflectorType::Rectangular,
        reflective_material: ReflectiveMaterial::AluminumFoil,
        reflector_number: 1,
    });
    // the last takes the last of every category
    assert_eq!(all[3839].0, Oven {
        abs: Absorber::ThurmaloxSolarCoating,
        window: WindowMaterial::DoubleMylar,
        inner_body: BodyMaterial::WoodSixteenthInch,
        outer_body: BodyMaterial::WoodSixteenthInch,
        insulator: Insulator::R30Fiberglass,
        reflector_type: ReflectorType::Trapezoidal,
        reflective_material: ReflectiveMaterial::SilverReflectiveVinyl,
        reflector_number: 4,
    });
}

#[test]
fn ranking_sorts_ascending() {
    let o = fixture_oven();
    let results = vec![(o, 30i64), (o, 10), (o, 20), (o, 10), (o, -5)];
    let ranked = ranking::rank_results(results.clone());
    assert_eq!(ranked.len(), results.len());
    let keys: Vec<i64> = ranked.iter().map(|r| r.1).collect();
    assert_eq!(keys, vec![-5, 10, 10, 20, 30]);
    let top = ranking::top_results(&ranked, 3);
    assert_eq!(top.iter().map(|r| r.1).collect::<Vec<i64>>(), vec![-5, 10, 10]);
}

fn fixture_oven() -> Oven {
    Oven {
        abs: Absorber::BlackConstructionPaper,
        window: WindowMaterial::SingleMylar,
        inner_body: BodyMaterial::Cardboard,
        outer_body: BodyMaterial::Cardboard,
        insulator: Insulator::Newspaper,
        reflector_type: ReflectorType::Rectangular,
        reflective_material: ReflectiveMaterial::TinFoil,
        reflector_number: 4,
    }
}

#[test]
fn grid_covers_both_axes() {
    let grid = solar_oven::graph::grid_points();
    assert_eq!(grid.len(), 36 * 151);
    assert_eq!(grid[0], (50_000, 0));
    assert_eq!(grid[150], (50_000, 1_500_000));
    assert_eq!(grid[151], (60_000, 0));
    assert_eq!(grid[grid.len() - 1], (400_000, 1_500_000));
    assert!(matches!(GraphDataResponse::Tio, GraphDataResponse::Tio));
}

#[test]
fn material_labels() {
    assert_eq!(Absorber::ThurmaloxSolarCoating.label(), "Thurmalox Solar Coating");
    assert_eq!(ReflectiveMaterial::SilverReflectiveVinyl.label(), "Silver Reflective Vinyl");
    assert_eq!(Insulator::R30Fiberglass.label(), "R30 Fiberglass");
    assert_eq!(BodyMaterial::WoodSixteenthInch.label(), "Wood 1/16 in");
    assert_eq!(WindowMaterial::DoubleMylar.label(), "Double Mylar");
}

#[test]
fn error_codes() {
    assert_eq!(ModelError::InvalidInput.code(), "invalid_input");
    assert_eq!(ModelError::Regression.code(), "regression_error");
    assert_eq!(ModelError::NoIntersection.code(), "no_intersection");
    assert_eq!(ModelError::Optimizer.code(), "optimizer_failure");
    let e = APIError::invalid_payload();
    assert_eq!(e.code, "invalid_payload");
    assert_eq!(e.message, "Invalid payload");
}
