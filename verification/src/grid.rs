//! The fixed grid the surface is sampled over.
//!
//! Each base-plane axis is sampled at 101 points, from -10.0 to 10.0 in
//! steps of 0.2 — in micro units, `(i - 50) * 200_000` for the i-th point.
//! The mesh's quadrilaterals stand between neighbouring samples of the two
//! axes, which use the same set of points.

use vstd::prelude::*;

verus! {

/// Number of sample points along each base-plane axis.
pub const GRID_POINTS: usize = 101;

/// Distance between neighbouring sample points, in micro units (0.2).
pub const GRID_STEP: i64 = 200_000;

/// The i-th sample point of either axis, in micro units.
pub open spec fn grid_point(i: int) -> int {
    (i - 50) * 200_000
}

/// Every sample point lies on the chart's fixed axis span, the first and
/// last on its edges, and neighbours stand one step apart.
pub proof fn lemma_grid_covers_axis(i: int)
    requires
        0 <= i < GRID_POINTS,
    ensures
        -10_000_000 <= grid_point(i) <= 10_000_000,
        grid_point(0) == -10_000_000,
        grid_point(GRID_POINTS - 1) == 10_000_000,
        i < GRID_POINTS - 1 ==> grid_point(i + 1) - grid_point(i) == GRID_STEP,
{
}

/// The sample points of one axis, in micro units, low to high.
pub fn grid_samples() -> (v: Vec<i64>)
    ensures
        v@.len() == GRID_POINTS,
        forall|i: int| 0 <= i < GRID_POINTS ==> #[trigger] v@[i] == grid_point(i),
{
    let mut v: Vec<i64> = Vec::new();
    let mut i: usize = 0;
    while i < GRID_POINTS
        invariant
            i <= GRID_POINTS,
            v@.len() == i,
            forall|j: int| 0 <= j < i ==> #[trigger] v@[j] == grid_point(j),
        decreases GRID_POINTS - i,
    {
        v.push((i as i64 - 50) * GRID_STEP);
        i = i + 1;
    }
    v
}

} // verus!
