//! The grid over which response surfaces are evaluated for the
//! visualization client: heights from five to forty centimetres and
//! insulation thicknesses from zero to a metre and a half, both in
//! one-centimetre steps.

use vstd::prelude::*;

verus! {

/// Number of height samples: five through forty centimetres.
pub const GRID_HEIGHTS: usize = 36;

/// Number of insulation samples: zero through one hundred fifty
/// centimetres.
pub const GRID_THICKNESSES: usize = 151;

/// Which response surface a grid evaluation reports.
#[derive(Clone, Copy, Debug, PartialEq, Eq, Structural)]
pub enum GraphDataResponse {
    Tio,
    Cost,
    PerformanceIndex,
    Score,
}

/// The grid point at position `k`: height and insulation thickness in
/// micrometres, the thickness varying fastest.
pub open spec fn spec_grid_point(k: int) -> (i64, i64) {
    (((5 + k / 151) * 10_000) as i64, ((k % 151) * 10_000) as i64)
}

/// Every grid point in evaluation order: for each height in 5..=40
/// centimetres, each insulation thickness in 0..=150 centimetres, both
/// in micrometres. The evaluated response for each point comes from
/// the thermal and cost model.
pub fn grid_points() -> (r: Vec<(i64, i64)>)
    ensures
        r@.len() == GRID_HEIGHTS * GRID_THICKNESSES,
        forall|k: int|
            0 <= k < r@.len() ==> #[trigger] r@[k] == spec_grid_point(k),
{
    let mut v: Vec<(i64, i64)> = Vec::new();
    let mut k: usize = 0;
    while k < 5436
        invariant
            k <= 5436,
            v@.len() == k,
            forall|m: int| 0 <= m < k ==> #[trigger] v@[m] == spec_grid_point(m),
        decreases 5436 - k,
    {
        let h = (5 + (k / 151) as i64) * 10_000;
        let t = ((k % 151) as i64) * 10_000;
        v.push((h, t));
        k = k + 1;
    }
    v
}

} // verus!
