//! Model of a passive solar box oven: material catalogs, geometry and
//! validity of a candidate design, an exact-arithmetic log-linear trend
//! model, the cost model, the combinatorial variant enumeration, and the
//! ranking of search results.
//!
//! All physical coefficients are carried as integers in fixed decimal
//! scales (documented per accessor), so that every rule of the model can
//! be stated and proved exactly. The floating-point evaluation pipeline
//! that drives the derivative-free optimizer lives outside the verified
//! library and reads its data from here.

use vstd::prelude::*;

pub mod cost;
pub mod design;
pub mod errors;
pub mod graph;
pub mod materials;
pub mod oven;
pub mod ranking;
pub mod rational;
pub mod reflectors;
pub mod trendline;
pub mod window;

pub use design::Design;
pub use errors::APIError;
pub use errors::ModelError;
pub use graph::GraphDataResponse;
pub use materials::Absorber;
pub use materials::BodyMaterial;
pub use materials::Insulator;
pub use materials::ReflectiveMaterial;
pub use oven::variants;
pub use oven::Oven;
pub use reflectors::ReflectorType;
pub use trendline::LNTrendline;
pub use window::WindowMaterial;

verus! {

/// Ambient outdoor temperature assumed by the thermal model, in whole
/// degrees Celsius.
pub const AMBIENT_C: i64 = 21;

/// Incident solar power density, in watts per square metre.
pub const SOLAR_POWER_DENSITY: i64 = 1000;

/// Elevation angle of the sun above the horizon, in tenths of
/// nanoradians (fifty degrees).
pub const SUN_ANGLE_E10: i64 = 8726646260;

/// Tilt of the oven window, in tenths of nanoradians: a quarter turn
/// less the sun angle, so window and sun rays meet at a right angle.
pub const OVEN_ANGLE_E10: i64 = 15707963268 - 8726646260;

/// The canonical target interior cooking temperature, in whole degrees
/// Celsius: hot enough to cook food reliably.
pub const GOAL_TIO_C: i64 = 250;

} // verus!
