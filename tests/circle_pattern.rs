use meander::circle::{
    calculate_circle_points, draw_greek_key_patterns, get_radii_for_outer_radius, ConfigError,
    GreekKeyCircleConfig, PiRatio, Point, PolarPoint, Ring,
};

fn value(r: PiRatio) -> f64 {
    let pi = std::f64::consts::PI;
    r.scale as f64 * (r.num as f64 + r.num_pi as f64 * pi) / (r.den as f64 + r.den_pi as f64 * pi)
}

const RINGS: [Ring; 7] = [Ring::Inner, Ring::A, Ring::B, Ring::C, Ring::D, Ring::E, Ring::Outer];

fn pp(ring: Ring, step: i64) -> PolarPoint {
    PolarPoint { ring, step }
}

#[test]
fn three_repeats_are_too_few() {
    assert_eq!(GreekKeyCircleConfig::new(300, 3, 1, 6).err(), Some(ConfigError::TooFewRepeats));
    assert_eq!(get_radii_for_outer_radius(300, 15), Err(ConfigError::TooFewRepeats));
    assert_eq!(get_radii_for_outer_radius(300, 18), Err(ConfigError::TooFewRepeats));
    assert!(get_radii_for_outer_radius(300, 19).is_ok());
}

#[test]
fn radii_ordered_from_four_repeats() {
    for count in 4..200 {
        let config = GreekKeyCircleConfig::new(300, count, 1, 6).ok().unwrap();
        let values: Vec<f64> = RINGS.iter().map(|r| value(config.radii.radius(*r))).collect();
        assert!(values[0] > 0.0);
        for i in 1..values.len() {
            assert!(values[i - 1] < values[i]);
        }
    }
}

#[test]
fn radii_match_the_formulas() {
    let radii = get_radii_for_outer_radius(300, 20).ok().unwrap();
    let pi = std::f64::consts::PI;
    let r_o = 300.0;
    let r_c = r_o / (6.0 * pi / 20.0 + 1.0);
    let close = |a: f64, b: f64| (a - b).abs() < 1e-9;
    assert!(close(value(radii.radius(Ring::C)), r_c));
    assert!(close(value(radii.radius(Ring::A)), (5.0 * r_c - 2.0 * r_o) / 3.0));
    assert!(close(value(radii.radius(Ring::B)), (4.0 * r_c - r_o) / 3.0));
    assert!(close(value(radii.radius(Ring::D)), (2.0 * r_c + r_o) / 3.0));
    assert!(close(value(radii.radius(Ring::E)), (r_c + 2.0 * r_o) / 3.0));
    assert!(close(value(radii.radius(Ring::Inner)), (6.0 * r_c - 3.0 * r_o) / 3.0));
    assert!(close(value(radii.radius(Ring::Outer)), r_o));
    assert_eq!(
        radii.radius(Ring::A),
        PiRatio { scale: 300, num: 20, num_pi: -4, den: 20, den_pi: 6 }
    );
}

#[test]
fn frame_radii_positive_and_ordered() {
    let radii = get_radii_for_outer_radius(1, 19).ok().unwrap();
    let r_i = value(radii.radius(Ring::Inner));
    let r_o = value(radii.radius(Ring::Outer));
    assert!(r_i > 0.0);
    assert!(r_i < r_o);
}

#[test]
fn circle_path_is_deterministic() {
    let a = GreekKeyCircleConfig::new(300, 30, 1, 6).ok().unwrap();
    let b = GreekKeyCircleConfig::new(300, 30, 1, 6).ok().unwrap();
    assert_eq!(draw_greek_key_patterns(&a), draw_greek_key_patterns(&b));
    assert_eq!(draw_greek_key_patterns(&a), draw_greek_key_patterns(&a));
}

#[test]
fn circle_path_vertices() {
    let config = GreekKeyCircleConfig::new(300, 4, 1, 6).ok().unwrap();
    let path = draw_greek_key_patterns(&config);
    assert_eq!(path.len(), 41);
    let expected = vec![
        pp(Ring::A, 0),
        pp(Ring::E, 0), pp(Ring::E, 4), pp(Ring::B, 4), pp(Ring::B, 2), pp(Ring::C, 2),
        pp(Ring::C, 3), pp(Ring::D, 3), pp(Ring::D, 1), pp(Ring::A, 1), pp(Ring::A, 5),
        pp(Ring::E, 5), pp(Ring::E, 9),
    ];
    assert_eq!(path[..13].to_vec(), expected);
    assert_eq!(path[40], pp(Ring::A, 20));
}

#[test]
fn circle_canvas_and_centre() {
    let config = GreekKeyCircleConfig::new(300, 30, 1, 6).ok().unwrap();
    assert_eq!(config.get_canvas_size(), (614, 614));
    assert_eq!(config.get_centre(), Point { x: 307, y: 307 });
    assert_eq!(config.get_start_position(Ring::C), pp(Ring::C, 0));
}

#[test]
fn six_points_per_ring() {
    let points = calculate_circle_points(pp(Ring::D, 10), Ring::D);
    let expected: Vec<PolarPoint> = (10..16).map(|s| pp(Ring::D, s)).collect();
    assert_eq!(points, expected);
    let config = GreekKeyCircleConfig::new(50, 5, 0, 0).ok().unwrap();
    let (a, _, _, _, e) = config.get_coords_for_patterns();
    assert_eq!(a[5], pp(Ring::A, 5));
    assert_eq!(e[0], pp(Ring::E, 0));
    let (_, b, _, _, _) = config.get_coords_for_patterns_by_p0(
        pp(Ring::A, 5), pp(Ring::B, 5), pp(Ring::C, 5), pp(Ring::D, 5), pp(Ring::E, 5),
    );
    assert_eq!(b[3], pp(Ring::B, 8));
}

#[test]
fn circle_args_give_the_layout_or_an_error() {
    let args = meander::params::CircleArgs { pattern_count: 3, radius: 300 };
    assert_eq!(args.config(1, 6).err(), Some(ConfigError::TooFewRepeats));
    let args = meander::params::CircleArgs { pattern_count: 30, radius: 300 };
    let config = args.config(1, 6).ok().unwrap();
    assert_eq!(config.radii.n, 150);
    assert_eq!(config.get_canvas_size(), (614, 614));
}

#[test]
fn points_follow_the_ring_they_are_built_on() {
    let points = calculate_circle_points(pp(Ring::B, 3), Ring::A);
    let mut expected = vec![pp(Ring::B, 3)];
    expected.extend((4..9).map(|s| pp(Ring::A, s)));
    assert_eq!(points, expected);

    let config = GreekKeyCircleConfig::new(300, 4, 1, 6).ok().unwrap();
    let (a, b, c, d, e) = config.get_coords_for_patterns_by_p0(
        pp(Ring::B, 5), pp(Ring::A, 5), pp(Ring::C, 5), pp(Ring::D, 5), pp(Ring::E, 5),
    );
    assert_eq!(a[0], pp(Ring::B, 5));
    assert_eq!(a[1], pp(Ring::A, 6));
    assert_eq!(a[5], pp(Ring::A, 10));
    assert_eq!(b[0], pp(Ring::A, 5));
    assert_eq!(b[2], pp(Ring::B, 7));
    assert_eq!(c[4], pp(Ring::C, 9));
    assert_eq!(d[3], pp(Ring::D, 8));
    assert_eq!(e[1], pp(Ring::E, 6));
}
