//! End-to-end checks of the thermal model against the reference
//! calibration values, evaluated in floating point from the library's
//! exact catalog data.

use solar_oven::design::Design;
use solar_oven::materials::Absorber;
use solar_oven::materials::BodyMaterial;
use solar_oven::materials::Insulator;
use solar_oven::materials::ReflectiveMaterial;
use solar_oven::reflectors::ReflectorType;
use solar_oven::window::WindowMaterial;

fn absorptivity(a: Absorber) -> f64 {
    a.absoptivity() as f64 / 10_000.0
}

fn transmitivity(w: WindowMaterial) -> f64 {
    w.transmitivity() as f64 / 10_000.0
}

fn reflectivity(m: ReflectiveMaterial) -> f64 {
    m.reflectivity() as f64 / 10_000.0
}

fn body_conductivity(b: BodyMaterial) -> f64 {
    b.conductivity() as f64 / 100_000_000_000.0
}

fn body_thickness(b: BodyMaterial) -> f64 {
    b.thickness() as f64 / 1_000_000.0
}

fn insulator_conductivity(i: Insulator) -> f64 {
    i.conductivity() as f64 / 100_000_000_000.0
}

fn metres(um: i64) -> f64 {
    um as f64 / 1_000_000.0
}

fn sun_angle() -> f64 {
    solar_oven::SUN_ANGLE_E10 as f64 / 10_000_000_000.0
}

fn oven_angle() -> f64 {
    solar_oven::OVEN_ANGLE_E10 as f64 / 10_000_000_000.0
}

fn alpha(reflector_ml: f64) -> f64 {
    let root = (reflector_ml * reflector_ml + 8.0).sqrt();
    ((-reflector_ml + root) / 4.0).asin()
}

fn gain(d: &Design) -> f64 {
    let ml = d.reflector_ml as f64 / 1000.0;
    let count = d.reflector_count as f64;
    let rho = reflectivity(d.reflectors);
    let s = alpha(ml).sin();
    match d.reflector_type {
        ReflectorType::Rectangular => 1.0 + count * rho * ml * s,
        ReflectorType::Trapezoidal => 1.0 + count * rho * ml * s * (1.0 + ml * s),
    }
}

fn usb(d: &Design) -> f64 {
    let iw = body_thickness(d.inner_body) / body_conductivity(d.inner_body);
    let c = metres(d.insulator_thickness) / insulator_conductivity(d.insulator);
    let ow = body_thickness(d.outer_body) / body_conductivity(d.outer_body);
    (iw + c + ow).recip()
}

fn tio_at_uw(d: &Design, uw: f64) -> f64 {
    let l = metres(d.l_and_w);
    let h = metres(d.h);
    let aw = l * l;
    let asb = aw + 4.0 * h * l;
    let num = 1000.0 * aw * transmitivity(d.window) * absorptivity(d.absorber) * (oven_angle()
        + sun_angle()).sin() * gain(d);
    let denom = usb(d) * asb + uw * aw;
    21.0 + num / denom
}

fn tio_line(d: &Design) -> (f64, f64) {
    let uws = d.window.uws();
    let xs: Vec<f64> = uws.iter().map(|p| (p.0 as f64 / 100.0).ln()).collect();
    let ys: Vec<f64> = uws.iter().map(|p| tio_at_uw(d, p.0 as f64 / 100.0)).collect();
    linreg::linear_regression(&xs, &ys).unwrap()
}

fn predicted_tio(d: &Design) -> f64 {
    let (a, b) = tio_line(d);
    let line = d.window.uw_line();
    let wc = line.coefficient as f64 / 100_000_000.0;
    let wi = line.intercept as f64 / 100_000_000.0;
    let x_int = ((wi - b) / (a - wc)).exp();
    a * x_int.ln() + b
}

fn total_cost(d: &Design) -> f64 {
    d.total_cost() as f64 / 40_000_000_000_000_000_000_000_000_000.0
}

fn score(d: &Design) -> f64 {
    let goal = solar_oven::GOAL_TIO_C as f64;
    (goal - predicted_tio(d)).abs() + total_cost(d) * 4.0
}

fn with_window(window: WindowMaterial) -> Design {
    Design {
        absorber: Absorber::BlackConstructionPaper,
        window,
        l_and_w: 85_000,
        h: 100_000,
        outer_body: BodyMaterial::Cardboard,
        inner_body: BodyMaterial::Cardboard,
        insulator: Insulator::Newspaper,
        insulator_thickness: 135_000,
        reflector_count: 4,
        reflector_type: ReflectorType::Rectangular,
        reflector_ml: 2000,
        reflectors: ReflectiveMaterial::TinFoil,
    }
}

fn assert_float_eq(left: f64, right: f64) {
    println!("{} {}", left, right);
    assert!((right - left).abs() < 1e-6);
}

#[test]
fn with_provided_uw() {
    let design = with_window(WindowMaterial::SingleMylar);
    let expected = 192.00020164848100;
    let calc = tio_at_uw(&design, 10.10);
    assert_float_eq(expected, calc);

    let design = with_window(WindowMaterial::DoubleMylar);
    let expected = 264.33652371572700;
    let calc = tio_at_uw(&design, 4.88);
    assert_float_eq(expected, calc);
}

#[test]
fn trendline() {
    let design = with_window(WindowMaterial::SingleMylar);
    let (coefficient, intercept) = tio_line(&design);

    let expected_coefficient = -82.94265852436450;
    let expected_intercept = 377.42095667476300;

    assert_float_eq(coefficient, expected_coefficient);
    assert_float_eq(intercept, expected_intercept);
}

#[test]
fn all() {
    let design = with_window(WindowMaterial::SingleMylar);
    let expected = 129.9165902561410;
    let calculated = predicted_tio(&design);
    assert_float_eq(expected, calculated);
}

#[test]
fn fixture_cost_matches_float_evaluation() {
    let design = with_window(WindowMaterial::SingleMylar);
    let exact = total_cost(&design);
    // the same six terms evaluated directly in floating point
    let l = 0.085f64;
    let h = 0.1f64;
    let t = 0.135f64;
    let ib = 0.004f64;
    let ob = 0.004f64;
    let aw = l * l;
    let asb = aw + 4.0 * h * l;
    let inner_volume = (h + ib) * (l + 2.0 * ib) * (l + 2.0 * ib);
    let outer_volume = (h + ib + t) * (l + 2.0 * ib + 2.0 * t) * (l + 2.0 * ib + 2.0 * t);
    let hh = h + ib + t;
    let ll = l + 2.0 * ib + 2.0 * t + 2.0 * ob;
    let surface = 4.0 * hh * ll + 2.0 * ll * ll;
    let reflector_area = (2.0 * l) * l * 4.0;
    let float_cost = 0.83 * asb + 1.75 * asb + 0.0 * (outer_volume - inner_volume) + 1.75 * (
        surface - aw) + 4.1443933155 * aw + 0.68 * reflector_area;
    assert!((exact - float_cost).abs() < 1e-9);
}

#[test]
fn optimizer_improves_on_initial_guess() {
    // one fixed configuration of the search, §4.5: the optimizer's best
    // point scores no worse than the initial guess
    let oven = solar_oven::oven::Oven {
        abs: Absorber::BlackConstructionPaper,
        window: WindowMaterial::SingleMylar,
        inner_body: BodyMaterial::Cardboard,
        outer_body: BodyMaterial::Cardboard,
        insulator: Insulator::Newspaper,
        reflector_type: ReflectorType::Rectangular,
        reflective_material: ReflectiveMaterial::TinFoil,
        reflector_number: 4,
    };
    let objective = |x: &[f64], oven: &mut solar_oven::oven::Oven| -> f64 {
        let d = design_from(oven, x);
        match d {
            Some(d) => score(&d),
            None => 1.0e12,
        }
    };
    let nan_guard = |x: &[f64], _oven: &mut solar_oven::oven::Oven| -> f64 {
        if x[0].is_nan() || x[1].is_nan() || x[2].is_nan() {
            -1.0
        } else {
            1.0
        }
    };
    let cons: Vec<&dyn cobyla::Func<solar_oven::oven::Oven>> = vec![&nan_guard];
    let init = [0.1f64, 0.1, 3.0];
    let initial_score = objective(&init, &mut oven.clone());
    let outcome = cobyla::minimize(
        objective,
        &init,
        &[(5e-2, 0.4), (0.0, 1.5), (1e-2, 3.0)],
        &cons,
        oven,
        100_000,
        cobyla::RhoBeg::All(0.5),
        None,
    );
    let best_score = match outcome {
        Ok((_, _, y)) => y,
        Err((cobyla::FailStatus::RoundoffLimited, _, y)) => y,
        Err((status, _, _)) => panic!("optimizer failed: {:?}", status),
    };
    assert!(best_score <= initial_score);
}

fn design_from(oven: &solar_oven::oven::Oven, x: &[f64]) -> Option<Design> {
    let h = x[0];
    let t = x[1];
    let ml = x[2];
    let l = (0.001 / h).sqrt();
    if !(h > 0.0 && l.is_finite() && l > 0.0 && t >= 0.0 && ml > 0.0) {
        return None;
    }
    Some(Design {
        absorber: oven.abs,
        window: oven.window,
        l_and_w: (l * 1_000_000.0).round() as i64,
        h: (h * 1_000_000.0).round() as i64,
        inner_body: oven.inner_body,
        outer_body: oven.outer_body,
        insulator: oven.insulator,
        insulator_thickness: (t * 1_000_000.0).round() as i64,
        reflector_count: oven.reflector_number,
        reflector_type: oven.reflector_type,
        reflector_ml: (ml * 1000.0).round() as i64,
        reflectors: oven.reflective_material,
    })
}
