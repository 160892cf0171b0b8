// A whole frame drawn twice through the real charting backend, steered by
// the library: the render gate, the chart layout, the sampling grid and the
// patch colours all come from gaussian_plot.

use gaussian_plot::color::hue_num_at;
use gaussian_plot::color::HUE_DEN;
use gaussian_plot::grid::grid_samples;
use gaussian_plot::params::PlotParams;
use gaussian_plot::render::chart_config;
use gaussian_plot::render::should_draw;

use plotters::prelude::BitMapBackend;
use plotters::prelude::ChartBuilder;
use plotters::prelude::Color;
use plotters::prelude::HSLColor;
use plotters::prelude::IntoDrawingArea;
use plotters::prelude::RGBColor;
use plotters::prelude::SurfaceSeries;
use plotters::prelude::BLACK;

fn micro(v: i64) -> f64 {
    v as f64 / 1_000_000.0
}

fn gaussian_pdf(p: &PlotParams, x: f64, y: f64) -> f64 {
    let x_diff = (x - micro(p.mean_x)) / micro(p.std_x);
    let y_diff = (y - micro(p.mean_y)) / micro(p.std_y);
    let exponent = -(x_diff * x_diff + y_diff * y_diff) / 2.0;
    let denom = (2.0 * std::f64::consts::PI / micro(p.std_x) / micro(p.std_y)).sqrt();
    (1.0 / denom) * exponent.exp()
}

fn render_into(p: &PlotParams, buf: &mut [u8], w: u32, h: u32) {
    if !should_draw(w, h) {
        return;
    }
    let c = chart_config();
    let root = BitMapBackend::with_buffer(buf, (w, h)).into_drawing_area();
    root.fill(&RGBColor(c.background_r, c.background_g, c.background_b))
        .unwrap();
    let mut chart = ChartBuilder::on(&root)
        .build_cartesian_3d(
            micro(c.x_min)..micro(c.x_max),
            micro(c.y_min)..micro(c.y_max),
            micro(c.z_min)..micro(c.z_max),
        )
        .unwrap();
    chart.with_projection(|mut pb| {
        pb.pitch = micro(p.pitch);
        pb.yaw = micro(p.yaw);
        pb.scale = micro(c.scale);
        pb.into_matrix()
    });
    chart
        .configure_axes()
        .light_grid_style(BLACK.mix(micro(c.light_grid_alpha)))
        .max_light_lines(c.max_light_lines as usize)
        .draw()
        .unwrap();
    let xs = grid_samples();
    chart
        .draw_series(
            SurfaceSeries::xoz(
                xs.iter().map(|&v| micro(v)),
                xs.iter().map(|&v| micro(v)),
                |x, y| gaussian_pdf(p, x, y),
            )
            .style_func(&|&v| {
                let height: i64 = (v * 1_000_000.0).round() as i64;
                let hue = hue_num_at(height) as f64 / HUE_DEN as f64;
                (&HSLColor(hue, micro(c.saturation), micro(c.lightness))).into()
            }),
        )
        .unwrap();
    root.present().unwrap();
}

#[test]
fn rendering_twice_is_pixel_identical() {
    let p = PlotParams::new(0, 0, 0, 0, 1_000_000, 1_000_000).unwrap();
    let (w, h): (u32, u32) = (400, 300);
    let mut first = vec![0u8; (w * h * 3) as usize];
    let mut second = vec![0u8; (w * h * 3) as usize];
    render_into(&p, &mut first, w, h);
    render_into(&p, &mut second, w, h);
    assert_eq!(first, second);
    // and the frame is not blank: some pixel left the white background
    assert!(first.iter().any(|&channel| channel != 255));
}

#[test]
fn zero_sized_canvas_draws_nothing_and_succeeds() {
    let p = PlotParams::new(0, 0, 0, 0, 1_000_000, 1_000_000).unwrap();
    let mut no_pixels: Vec<u8> = Vec::new();
    render_into(&p, &mut no_pixels, 0, 300);
    render_into(&p, &mut no_pixels, 400, 0);
    assert!(no_pixels.is_empty());
}

#[test]
fn demo_scene_peaks_at_the_documented_height() {
    // mean (0, 0), std (1, 1): the peak over grid point (0, 0) is
    // 1 / sqrt(2 * pi), about 0.3989, under the plot's own normalization
    let p = PlotParams::new(0, 0, 0, 0, 1_000_000, 1_000_000).unwrap();
    let peak = gaussian_pdf(&p, 0.0, 0.0);
    let expected = 1.0 / (2.0 * std::f64::consts::PI).sqrt();
    assert!((peak - expected).abs() < 1e-12);
    assert!((peak - 0.3989).abs() < 1e-4);
    // the height axis reaches 1.2, so the demo peak fits under it
    assert!(peak < micro(chart_config().y_max));
}
