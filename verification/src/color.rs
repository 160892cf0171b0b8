//! The height-to-colour map of the surface mesh.
//!
//! A patch whose height (the density, expected in [0.0, 1.0]) is `v` is
//! painted in HSL with hue `240/360 - (240/360) * v`, full saturation and
//! 70% lightness: from blue at the base, through the spectrum, toward red
//! at the peak. With the height in micro units the hue is exactly the
//! fraction `hue_numerator / HUE_DEN` of a full turn; the numerator is the
//! integer computed here, and the denominator is fixed.

use vstd::prelude::*;

verus! {

/// Fixed denominator of the hue fraction: a hue of `n / HUE_DEN` turns has
/// numerator `n`.
pub const HUE_DEN: i64 = 3_000_000;

/// Numerator of the hue at height 0: `2_000_000 / HUE_DEN == 240/360`,
/// pure blue.
pub const HUE_NUM_MAX: i64 = 2_000_000;

/// Heights this map is meant for, in micro units: the expected [0.0, 1.0].
pub const HEIGHT_MAX: i64 = 1_000_000;

/// Numerator of the hue, over [`HUE_DEN`], for a height of `v` micro
/// units: `2 * (1_000_000 - v)`, which is `240/360 - (240/360) * (v / 10^6)`
/// of a full turn.
pub open spec fn hue_numerator(v: int) -> int {
    2 * (1_000_000 - v)
}

/// Computes [`hue_numerator`]. Heights outside [0, HEIGHT_MAX] are mapped
/// by the same line, as the colour formula extends to them.
pub fn hue_num_at(v: i64) -> (n: i64)
    requires
        -1_000_000_000_000 <= v <= 1_000_000_000_000,
    ensures
        n == hue_numerator(v as int),
{
    2 * (1_000_000 - v)
}

/// The gradient runs one way: a higher patch gets a strictly smaller hue,
/// never a colour already used below it (blue at the base toward red at
/// the peak).
pub proof fn lemma_hue_strictly_decreasing(v1: int, v2: int)
    requires
        v1 < v2,
    ensures
        hue_numerator(v1) > hue_numerator(v2),
{
}

/// The gradient's ends: height 0 is pure blue (240/360 of a turn) and
/// height 1.0 is hue 0, red.
pub proof fn lemma_hue_endpoints()
    ensures
        hue_numerator(0) == HUE_NUM_MAX,
        hue_numerator(HEIGHT_MAX as int) == 0,
{
}

/// The map is continuous in the discrete sense: one micro unit of height
/// moves the hue numerator by exactly 2 — there is no jump anywhere on
/// the gradient.
pub proof fn lemma_hue_smallest_step(v: int)
    ensures
        hue_numerator(v) - hue_numerator(v + 1) == 2,
{
}

} // verus!
