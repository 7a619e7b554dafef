use meander::path::RelativePath;
use meander::rect::{draw_frame, draw_greek_key_patterns, GreekKeyRectConfig};

fn end_point(path: &RelativePath) -> (i64, i64) {
    let mut p = path.start;
    for m in &path.moves {
        p = (p.0 + m.0, p.1 + m.1);
    }
    p
}

#[test]
fn small_rect_path_starts_at_start_position_and_closes() {
    let config = GreekKeyRectConfig::new(25, 2, 2, 1, 0);
    let path = draw_greek_key_patterns(&config);
    // x: margin + unit + stroke; y: pattern length + margin + unit + stroke.
    assert_eq!(path.start, (26, 151));
    assert_eq!(config.get_start_position(), (26, 151));
    assert_eq!(end_point(&path), (26, 151));
}

#[test]
fn default_rect_canvas_size() {
    let config = GreekKeyRectConfig::new(25, 16, 9, 1, 6);
    assert_eq!(config.key_pattern_length, 125);
    assert_eq!(config.get_canvas_size(), (2064, 1189));
}

#[test]
fn rect_segment_count() {
    let config = GreekKeyRectConfig::new(25, 16, 9, 1, 6);
    let path = draw_greek_key_patterns(&config);
    // 20 per width repeat, 20 per height repeat, 6 at the start and corners.
    assert_eq!(path.moves.len(), 20 * 15 + 20 * 8 + 6);
    let small = draw_greek_key_patterns(&GreekKeyRectConfig::new(25, 2, 2, 1, 0));
    assert_eq!(small.moves.len(), 46);
}

#[test]
fn rect_paths_close_for_many_sizes() {
    for w in 0..8 {
        for h in 0..8 {
            let config = GreekKeyRectConfig::new(10, w, h, 3, 2);
            let path = draw_greek_key_patterns(&config);
            assert_eq!(end_point(&path), path.start);
        }
    }
}

#[test]
fn rect_motifs_in_order() {
    let config = GreekKeyRectConfig::new(25, 2, 2, 0, 0);
    let path = draw_greek_key_patterns(&config);
    let expected: Vec<(i64, i64)> = vec![
        (0, -25),
        // top
        (0, -100), (100, 0), (0, 75), (-50, 0), (0, -25),
        (25, 0), (0, -25), (-50, 0), (0, 75), (100, 0),
        (0, -100), (25, 0),
        // right
        (100, 0), (0, 100), (-75, 0), (0, -50), (25, 0),
        (0, 25), (25, 0), (0, -50), (-75, 0), (0, 100),
        (100, 0), (0, 125),
        // bottom
        (-100, 0), (0, -75), (50, 0), (0, 25), (-25, 0),
        (0, 25), (50, 0), (0, -75), (-100, 0), (0, 100),
        (-125, 0),
        // left
        (0, -100), (75, 0), (0, 50), (-25, 0), (0, -25),
        (-25, 0), (0, 50), (75, 0), (0, -100), (-100, 0),
    ];
    assert_eq!(path.moves, expected);
}

#[test]
fn degenerate_rect_has_only_corner_moves() {
    let config = GreekKeyRectConfig::new(4, 1, 0, 0, 0);
    let path = draw_greek_key_patterns(&config);
    assert_eq!(path.moves, vec![(0, -4), (0, -16), (4, 0), (16, 0), (0, 20), (-20, 0)]);
}

#[test]
fn rect_frames() {
    let config = GreekKeyRectConfig::new(25, 16, 9, 1, 6);
    assert_eq!(config.get_outer_frame_size(), (7, 7, 2050, 1175));
    assert_eq!(config.get_inner_frame_size(), (157, 156, 1750, 875));
}

#[test]
fn rect_extreme_sizes_do_not_overflow() {
    let config = GreekKeyRectConfig::new(i32::MAX, i32::MAX, i32::MIN, i32::MAX, i32::MAX);
    let (w, h) = config.get_canvas_size();
    let kpl = 5 * (i32::MAX as i128);
    let m = i32::MAX as i128;
    assert_eq!(w, m * kpl + 6 * m);
    assert_eq!(h, (i32::MIN as i128) * kpl + 6 * m);
}

#[test]
fn rect_args_give_the_layout() {
    let args = meander::params::RectArgs { size: 25, width: 16, height: 9 };
    let config = args.config(1, 6);
    assert_eq!(config.key_pattern_length, 125);
    assert_eq!(config.get_canvas_size(), (2064, 1189));
}

#[test]
fn frame_outline_walks_three_edges() {
    let config = GreekKeyRectConfig::new(25, 16, 9, 1, 6);
    let (x, y, w, h) = config.get_outer_frame_size();
    let frame = draw_frame(x, y, w, h);
    assert_eq!(frame.corner, (7, 7));
    assert_eq!(frame.moves, vec![(2050, 0), (0, 1175), (-2050, 0)]);
}
