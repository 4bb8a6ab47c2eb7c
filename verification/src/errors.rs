//! The model's error taxonomy, and the error object returned over the
//! request/response boundary.

use vstd::prelude::*;

verus! {

/// Everything that can go wrong inside the model.
///
/// An invalid design is never propagated into the thermal model: callers
/// score it with a large sentinel instead. A degenerate regression or a
/// missing trend-line intersection aborts one configuration only, never
/// the whole search; so does a solver failure.
#[derive(Clone, Copy, Debug, PartialEq, Eq, Structural)]
pub enum ModelError {
    /// A design with a non-positive dimension or a zero reflector count.
    InvalidInput,
    /// Calibration data too degenerate to fit a trend line.
    Regression,
    /// Two trend lines with equal slopes have no intersection.
    NoIntersection,
    /// The continuous optimizer failed for one configuration.
    Optimizer,
}

impl ModelError {
    /// A stable machine-readable code for each error kind.
    pub fn code(&self) -> (r: &'static str)
        ensures
            self is InvalidInput ==> r@ == "invalid_input"@,
            self is Regression ==> r@ == "regression_error"@,
            self is NoIntersection ==> r@ == "no_intersection"@,
            self is Optimizer ==> r@ == "optimizer_failure"@,
    {
        match self {
            ModelError::InvalidInput => "invalid_input",
            ModelError::Regression => "regression_error",
            ModelError::NoIntersection => "no_intersection",
            ModelError::Optimizer => "optimizer_failure",
        }
    }
}

/// The error object returned to a client of the request/response
/// boundary: a human-readable message and a machine-readable code.
pub struct APIError {
    pub message: &'static str,
    pub code: &'static str,
}

impl APIError {
    /// The error returned for a payload that does not parse.
    pub fn invalid_payload() -> (r: APIError)
        ensures
            r.message@ == "Invalid payload"@,
            r.code@ == "invalid_payload"@,
    {
        APIError { message: "Invalid payload", code: "invalid_payload" }
    }
}

} // verus!
