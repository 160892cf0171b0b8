use gaussian_plot::color::hue_num_at;
use gaussian_plot::color::HEIGHT_MAX;
use gaussian_plot::color::HUE_DEN;
use gaussian_plot::color::HUE_NUM_MAX;

#[test]
fn hue_endpoints_are_blue_and_red() {
    // height 0 -> hue 240/360 of a turn; height 1.0 -> hue 0
    assert_eq!(hue_num_at(0), HUE_NUM_MAX);
    assert_eq!(HUE_NUM_MAX * 360, 240 * HUE_DEN);
    assert_eq!(hue_num_at(HEIGHT_MAX), 0);
}

#[test]
fn hue_decreases_as_height_grows() {
    let mut previous = hue_num_at(0);
    let mut v: i64 = 10_000;
    while v <= HEIGHT_MAX {
        let here = hue_num_at(v);
        assert!(here < previous);
        previous = here;
        v += 10_000;
    }
}

#[test]
fn hue_moves_in_the_smallest_possible_steps() {
    // discrete continuity: one micro unit of height moves the numerator by 2
    let samples: [i64; 4] = [0, 399_999, 500_000, 999_999];
    for &v in &samples {
        assert_eq!(hue_num_at(v) - hue_num_at(v + 1), 2);
    }
}

#[test]
fn hue_matches_the_float_formula() {
    // the fixed-point fraction equals 240/360 - (240/360) * v at every
    // sampled height, up to float rounding
    let mut v: i64 = 0;
    while v <= HEIGHT_MAX {
        let exact = hue_num_at(v) as f64 / HUE_DEN as f64;
        let float = 240.0 / 360.0 - 240.0 / 360.0 * (v as f64 / 1_000_000.0);
        assert!((exact - float).abs() < 1e-12);
        v += 33_333;
    }
}

#[test]
fn heights_past_the_expected_range_stay_on_the_same_line() {
    // the colour formula extends linearly past 1.0 (tall peaks reach it)
    // and the map follows the same line rather than clamping
    assert_eq!(hue_num_at(2_000_000), -2_000_000);
    assert_eq!(hue_num_at(-1_000_000), 4_000_000);
}
