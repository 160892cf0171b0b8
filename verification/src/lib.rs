//! Verified core of an interactive surface plot of a bivariate Gaussian
//! density.
//!
//! An unverified front end owns the window, the sliders and the drawing
//! backend; everything it decides with is computed here over exact
//! fixed-point integers: which slider values are accepted ([`params`]),
//! whether a frame is drawn at all and with which fixed chart configuration
//! ([`render`]), where the surface is sampled ([`grid`]), how two points'
//! densities compare ([`density`]), and which hue a surface patch gets
//! ([`color`]). Scalars are carried in micro units: [`MICRO`] units stand
//! for 1.0.

use vstd::prelude::*;

pub mod color;
pub mod density;
pub mod grid;
pub mod params;
pub mod render;

verus! {

/// Fixed-point scale of every scalar in this crate: `MICRO` units are 1.0.
pub const MICRO: i64 = 1_000_000;

} // verus!
