//! What a render call does before any drawing command is issued: decide
//! whether the frame is drawn at all, and fix the chart it is drawn into.

use vstd::prelude::*;

verus! {

/// The fixed layout of every frame, in micro units where a field is a
/// scalar. The axes and the projection scale never follow the sliders;
/// only the camera angles and the density parameters do.
#[derive(Clone, Copy, Debug, PartialEq, Eq, Structural)]
pub struct ChartConfig {
    /// Low edge of the horizontal axis (-10.0).
    pub x_min: i64,
    /// High edge of the horizontal axis (10.0).
    pub x_max: i64,
    /// Low edge of the height axis (0.0).
    pub y_min: i64,
    /// High edge of the height axis (1.2).
    pub y_max: i64,
    /// Low edge of the depth axis (-10.0).
    pub z_min: i64,
    /// High edge of the depth axis (10.0).
    pub z_max: i64,
    /// Zoom scale of the pitch/yaw projection (0.7).
    pub scale: i64,
    /// Most light grid lines drawn per axis per pass.
    pub max_light_lines: u32,
    /// Opacity of the light grid's black lines (0.15).
    pub light_grid_alpha: i64,
    /// Saturation of every surface patch (1.0, full).
    pub saturation: i64,
    /// Lightness of every surface patch (0.7).
    pub lightness: i64,
    /// Background fill's 8-bit red channel: solid white.
    pub background_r: u8,
    /// Background fill's 8-bit green channel.
    pub background_g: u8,
    /// Background fill's 8-bit blue channel.
    pub background_b: u8,
}

/// The one configuration every frame uses.
pub open spec fn fixed_chart_config() -> ChartConfig {
    ChartConfig {
        x_min: -10_000_000i64,
        x_max: 10_000_000,
        y_min: 0,
        y_max: 1_200_000,
        z_min: -10_000_000i64,
        z_max: 10_000_000,
        scale: 700_000,
        max_light_lines: 3,
        light_grid_alpha: 150_000,
        saturation: 1_000_000,
        lightness: 700_000,
        background_r: 255,
        background_g: 255,
        background_b: 255,
    }
}

/// Hands the front end the fixed chart layout of [`fixed_chart_config`].
pub fn chart_config() -> (c: ChartConfig)
    ensures
        c == fixed_chart_config(),
{
    ChartConfig {
        x_min: -10_000_000,
        x_max: 10_000_000,
        y_min: 0,
        y_max: 1_200_000,
        z_min: -10_000_000,
        z_max: 10_000_000,
        scale: 700_000,
        max_light_lines: 3,
        light_grid_alpha: 150_000,
        saturation: 1_000_000,
        lightness: 700_000,
        background_r: 255,
        background_g: 255,
        background_b: 255,
    }
}

/// Whether a frame is drawn at all: a canvas with a zero pixel dimension
/// gets no drawing command — not an error, a silent skip — and every other
/// canvas is drawn on.
pub fn should_draw(width: u32, height: u32) -> (draw: bool)
    ensures
        draw <==> width > 0 && height > 0,
{
    width > 0 && height > 0
}

} // verus!
