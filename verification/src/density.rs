//! Ordering model of the plotted density.
//!
//! The surface's height at a point (x, y) of the base plane is
//!
//! ```text
//! density(x, y) = (1 / denom) * exp(-((x - mean_x)^2 / std_x^2
//!                                     + (y - mean_y)^2 / std_y^2) / 2)
//! ```
//!
//! with `denom = sqrt(2 * pi / (std_x * std_y))` — the plot's own
//! normalization, chosen for a pleasing picture rather than the textbook
//! bivariate constant, and kept deliberately. `exp` and `sqrt` are evaluated by the
//! unverified front end in floating point; what is verified here is the
//! exponent's numerator, an exact integer. Over a common denominator,
//!
//! ```text
//! (x - mean_x)^2 / std_x^2 + (y - mean_y)^2 / std_y^2
//!     == weighted_sq_dist / (std_x^2 * std_y^2),
//! ```
//!
//! and for one parameter snapshot the factor `1 / denom` and the divisor
//! `std_x^2 * std_y^2` are fixed and positive, so the density is a strictly
//! decreasing function of [`weighted_sq_dist`]: every comparison of two
//! heights of one frame is a reversed comparison of this integer. The micro
//! scale cancels in `(x - mean_x) / std_x`, so the quantity needs no unit
//! correction.

use vstd::prelude::*;

use crate::grid::grid_point;
use crate::grid::GRID_POINTS;
use crate::params::PlotParams;

verus! {

/// Largest coordinate magnitude the chart can ask a density for, in micro
/// units: the fixed axes span [-10.0, 10.0].
pub const COORD_LIMIT: i64 = 10_000_000;

/// The square of an integer.
pub open spec fn sq(a: int) -> int {
    a * a
}

/// Numerator of the density's (negated, doubled) exponent at (x, y) over
/// the common denominator `std_x^2 * std_y^2`:
/// `(x - mean_x)^2 * std_y^2 + (y - mean_y)^2 * std_x^2`.
///
/// For a fixed snapshot, the density at (x1, y1) is at least the density
/// at (x2, y2) exactly when this quantity at (x1, y1) is at most this
/// quantity at (x2, y2).
pub open spec fn weighted_sq_dist(p: PlotParams, x: int, y: int) -> int {
    sq(x - p.mean_x) * sq(p.std_y as int) + sq(y - p.mean_y) * sq(p.std_x as int)
}

/// Evaluates [`weighted_sq_dist`] at a chart coordinate, rejecting a
/// degenerate snapshot (a zero standard deviation, under which the density
/// itself is undefined) instead of producing one.
pub fn density_shape_at(p: &PlotParams, x: i64, y: i64) -> (r: Option<i128>)
    requires
        p.wf(),
        -COORD_LIMIT <= x <= COORD_LIMIT,
        -COORD_LIMIT <= y <= COORD_LIMIT,
    ensures
        r is Some <==> p.density_defined(),
        r matches Some(d) ==> d == weighted_sq_dist(*p, x as int, y as int),
{
    if p.std_x <= 0 || p.std_y <= 0 {
        return None;
    }
    let dx: i64 = x - p.mean_x;
    let dy: i64 = y - p.mean_y;
    proof {
        assert(0 <= (dx as int) * (dx as int) <= 400_000_000_000_000) by (nonlinear_arith)
            requires
                -20_000_000 <= dx <= 20_000_000,
        ;
        assert(0 <= (dy as int) * (dy as int) <= 400_000_000_000_000) by (nonlinear_arith)
            requires
                -20_000_000 <= dy <= 20_000_000,
        ;
        assert(0 <= (p.std_x as int) * (p.std_x as int) <= 100_000_000_000_000) by (nonlinear_arith)
            requires
                0 <= p.std_x <= 10_000_000,
        ;
        assert(0 <= (p.std_y as int) * (p.std_y as int) <= 100_000_000_000_000) by (nonlinear_arith)
            requires
                0 <= p.std_y <= 10_000_000,
        ;
    }
    let dx2: i128 = (dx as i128) * (dx as i128);
    let dy2: i128 = (dy as i128) * (dy as i128);
    let sx2: i128 = (p.std_x as i128) * (p.std_x as i128);
    let sy2: i128 = (p.std_y as i128) * (p.std_y as i128);
    proof {
        assert(0 <= (dx2 as int) * (sy2 as int) <= 40_000_000_000_000_000_000_000_000_000)
            by (nonlinear_arith)
            requires
                0 <= dx2 <= 400_000_000_000_000,
                0 <= sy2 <= 100_000_000_000_000,
        ;
        assert(0 <= (dy2 as int) * (sx2 as int) <= 40_000_000_000_000_000_000_000_000_000)
            by (nonlinear_arith)
            requires
                0 <= dy2 <= 400_000_000_000_000,
                0 <= sx2 <= 100_000_000_000_000,
        ;
    }
    Some(dx2 * sy2 + dy2 * sx2)
}

/// The peak stands over the mean: at (mean_x, mean_y) the weighted squared
/// distance is 0, and nowhere is it smaller, so for a well-defined snapshot
/// the density at the mean is the largest the surface reaches — at grid
/// points and everywhere else.
pub proof fn lemma_peak_at_mean(p: PlotParams, x: int, y: int)
    ensures
        weighted_sq_dist(p, p.mean_x as int, p.mean_y as int) == 0,
        weighted_sq_dist(p, x, y) >= 0,
{
    assert(sq(0) == 0) by (nonlinear_arith);
    assert(sq(x - p.mean_x) >= 0 && sq(p.std_y as int) >= 0 && sq(x - p.mean_x) * sq(p.std_y as int) >= 0)
        by (nonlinear_arith);
    assert(sq(y - p.mean_y) >= 0 && sq(p.std_x as int) >= 0 && sq(y - p.mean_y) * sq(p.std_x as int) >= 0)
        by (nonlinear_arith);
}

/// Over the sampled grid the peak is at the mean: no grid sample's density
/// exceeds the density evaluated at (mean_x, mean_y), whether or not the
/// mean falls on a grid point itself.
pub proof fn lemma_mean_caps_the_grid(p: PlotParams, i: int, j: int)
    requires
        0 <= i < GRID_POINTS,
        0 <= j < GRID_POINTS,
    ensures
        weighted_sq_dist(p, grid_point(i), grid_point(j))
            >= weighted_sq_dist(p, p.mean_x as int, p.mean_y as int),
{
    lemma_peak_at_mean(p, grid_point(i), grid_point(j));
}

/// The surface is mirror-symmetric about the mean: flipping the sign of
/// the offset from the mean along either axis, independently, leaves the
/// weighted squared distance — and with it the density — unchanged.
pub proof fn lemma_symmetric_about_mean(p: PlotParams, dx: int, dy: int)
    ensures
        weighted_sq_dist(p, p.mean_x + dx, p.mean_y + dy)
            == weighted_sq_dist(p, p.mean_x - dx, p.mean_y + dy),
        weighted_sq_dist(p, p.mean_x + dx, p.mean_y + dy)
            == weighted_sq_dist(p, p.mean_x + dx, p.mean_y - dy),
{
    assert(sq(dx) == sq(-dx)) by (nonlinear_arith);
    assert(sq(dy) == sq(-dy)) by (nonlinear_arith);
}

/// Moving away from the mean along either axis (or both) can only lower
/// the surface: the weighted squared distance grows with each offset's
/// magnitude, so the density tapers outward from the peak.
pub proof fn lemma_tapers_outward(p: PlotParams, dx1: int, dy1: int, dx2: int, dy2: int)
    requires
        0 <= dx1 <= dx2,
        0 <= dy1 <= dy2,
    ensures
        weighted_sq_dist(p, p.mean_x + dx1, p.mean_y + dy1)
            <= weighted_sq_dist(p, p.mean_x + dx2, p.mean_y + dy2),
{
    assert(sq(dx1) * sq(p.std_y as int) <= sq(dx2) * sq(p.std_y as int)) by (nonlinear_arith)
        requires
            0 <= dx1 <= dx2,
    ;
    assert(sq(dy1) * sq(p.std_x as int) <= sq(dy2) * sq(p.std_x as int)) by (nonlinear_arith)
        requires
            0 <= dy1 <= dy2,
    ;
}

/// With equal standard deviations the surface is a ring: the weighted
/// squared distance — and with it the density — depends on the offsets
/// from the mean only through `dx^2 + dy^2`, the squared Euclidean radius.
pub proof fn lemma_equal_stds_circular(p: PlotParams, x: int, y: int)
    requires
        p.std_x == p.std_y,
    ensures
        weighted_sq_dist(p, x, y) == (sq(x - p.mean_x) + sq(y - p.mean_y)) * sq(p.std_x as int),
{
    assert((sq(x - p.mean_x) + sq(y - p.mean_y)) * sq(p.std_x as int)
        == sq(x - p.mean_x) * sq(p.std_x as int) + sq(y - p.mean_y) * sq(p.std_x as int)) by (nonlinear_arith);
}

} // verus!
