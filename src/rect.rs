//! Rectangular meander: layout measurements and the closed path.
use vstd::prelude::*;

use crate::path::{
    lemma_displacement_concat, lemma_displacement_repeat, lemma_repeat_len, displacement, off, repeat, RelativePath,
};

verus! {

/// Layout of a rectangular meander, in whole units of length.
pub struct GreekKeyRectConfig {
    pub key_unit_length: i32,
    pub width_units: i32,
    pub height_units: i32,
    pub key_pattern_length: i64,
    pub border_margin: i32,
    pub stroke_width: i32,
}

/// How many times a side's motif repeats for a side of `units` pattern lengths.
pub open spec fn side_repeats(units: int) -> nat {
    if units > 1 {
        (units - 1) as nat
    } else {
        0
    }
}

/// Motif of the top side, travelling left to right.
pub open spec fn horizontal_unit(k: int) -> Seq<(i64, i64)> {
    seq![
        off(0, -4 * k), off(4 * k, 0), off(0, 3 * k), off(-2 * k, 0), off(0, -k),
        off(k, 0), off(0, -k), off(-2 * k, 0), off(0, 3 * k), off(4 * k, 0),
    ]
}

/// Motif of the right side, travelling downwards.
pub open spec fn vertical_unit(k: int) -> Seq<(i64, i64)> {
    seq![
        off(4 * k, 0), off(0, 4 * k), off(-3 * k, 0), off(0, -2 * k), off(k, 0),
        off(0, k), off(k, 0), off(0, -2 * k), off(-3 * k, 0), off(0, 4 * k),
    ]
}

/// Motif of the bottom side, travelling right to left.
pub open spec fn horizontal_unit_right_to_left(k: int) -> Seq<(i64, i64)> {
    seq![
        off(-4 * k, 0), off(0, -3 * k), off(2 * k, 0), off(0, k), off(-k, 0),
        off(0, k), off(2 * k, 0), off(0, -3 * k), off(-4 * k, 0), off(0, 4 * k),
    ]
}

/// Motif of the left side, travelling upwards.
pub open spec fn vertical_unit_bottom_up(k: int) -> Seq<(i64, i64)> {
    seq![
        off(0, -4 * k), off(3 * k, 0), off(0, 2 * k), off(-k, 0), off(0, -k),
        off(-k, 0), off(0, 2 * k), off(3 * k, 0), off(0, -4 * k), off(-4 * k, 0),
    ]
}

/// The relative moves of the whole meander, clockwise from the start position.
pub open spec fn rect_moves(k: int, w: int, h: int) -> Seq<(i64, i64)> {
    seq![off(0, -k)]
        + repeat(horizontal_unit(k), side_repeats(w))
        + seq![off(0, -4 * k), off(k, 0)]
        + repeat(vertical_unit(k), side_repeats(h))
        + seq![off(4 * k, 0), off(0, 5 * k)]
        + repeat(horizontal_unit_right_to_left(k), side_repeats(w))
        + seq![off(-5 * k, 0)]
        + repeat(vertical_unit_bottom_up(k), side_repeats(h))
}

/// The four sides of the frame, in the order the meander walks them.
#[derive(PartialEq, Eq, Structural, Clone, Copy, Debug)]
pub enum Side {
    Top,
    Right,
    Bottom,
    Left,
}

/// The motif that repeats along a side.
pub open spec fn side_unit(side: Side, k: int) -> Seq<(i64, i64)> {
    match side {
        Side::Top => horizontal_unit(k),
        Side::Right => vertical_unit(k),
        Side::Bottom => horizontal_unit_right_to_left(k),
        Side::Left => vertical_unit_bottom_up(k),
    }
}

/// A unit length that an `i32` holds, so that every move fits in an `i64`.
pub open spec fn unit_in_range(k: int) -> bool {
    i32::MIN <= k <= i32::MAX
}

fn draw_horizontal_unit(moves: &mut Vec<(i64, i64)>, k: i64)
    requires
        unit_in_range(k as int),
    ensures
        final(moves)@ == old(moves)@ + horizontal_unit(k as int),
{
    let ghost start = moves@;
    moves.push((0, -(4 * k)));
    moves.push((4 * k, 0));
    moves.push((0, 3 * k));
    moves.push((-(2 * k), 0));
    moves.push((0, -k));
    moves.push((k, 0));
    moves.push((0, -k));
    moves.push((-(2 * k), 0));
    moves.push((0, 3 * k));
    moves.push((4 * k, 0));
    assert(moves@ =~= start + horizontal_unit(k as int));
}

fn draw_vertical_unit(moves: &mut Vec<(i64, i64)>, k: i64)
    requires
        unit_in_range(k as int),
    ensures
        final(moves)@ == old(moves)@ + vertical_unit(k as int),
{
    let ghost start = moves@;
    moves.push((4 * k, 0));
    moves.push((0, 4 * k));
    moves.push((-(3 * k), 0));
    moves.push((0, -(2 * k)));
    moves.push((k, 0));
    moves.push((0, k));
    moves.push((k, 0));
    moves.push((0, -(2 * k)));
    moves.push((-(3 * k), 0));
    moves.push((0, 4 * k));
    assert(moves@ =~= start + vertical_unit(k as int));
}

fn draw_horizontal_unit_right_to_left(moves: &mut Vec<(i64, i64)>, k: i64)
    requires
        unit_in_range(k as int),
    ensures
        final(moves)@ == old(moves)@ + horizontal_unit_right_to_left(k as int),
{
    let ghost start = moves@;
    moves.push((-(4 * k), 0));
    moves.push((0, -(3 * k)));
    moves.push((2 * k, 0));
    moves.push((0, k));
    moves.push((-k, 0));
    moves.push((0, k));
    moves.push((2 * k, 0));
    moves.push((0, -(3 * k)));
    moves.push((-(4 * k), 0));
    moves.push((0, 4 * k));
    assert(moves@ =~= start + horizontal_unit_right_to_left(k as int));
}

fn draw_vertical_unit_bottom_up(moves: &mut Vec<(i64, i64)>, k: i64)
    requires
        unit_in_range(k as int),
    ensures
        final(moves)@ == old(moves)@ + vertical_unit_bottom_up(k as int),
{
    let ghost start = moves@;
    moves.push((0, -(4 * k)));
    moves.push((3 * k, 0));
    moves.push((0, 2 * k));
    moves.push((-k, 0));
    moves.push((0, -k));
    moves.push((-k, 0));
    moves.push((0, 2 * k));
    moves.push((3 * k, 0));
    moves.push((0, -(4 * k)));
    moves.push((-(4 * k), 0));
    assert(moves@ =~= start + vertical_unit_bottom_up(k as int));
}

fn draw_side(moves: &mut Vec<(i64, i64)>, k: i64, reps: i64, side: Side)
    requires
        unit_in_range(k as int),
        reps >= 0,
    ensures
        final(moves)@ == old(moves)@ + repeat(side_unit(side, k as int), reps as nat),
{
    let ghost before = moves@;
    let mut i: i64 = 0;
    assert(before =~= before + repeat(side_unit(side, k as int), 0));
    while i < reps
        invariant
            0 <= i <= reps,
            unit_in_range(k as int),
            moves@ == before + repeat(side_unit(side, k as int), i as nat),
        decreases reps - i,
    {
        match side {
            Side::Top => draw_horizontal_unit(moves, k),
            Side::Right => draw_vertical_unit(moves, k),
            Side::Bottom => draw_horizontal_unit_right_to_left(moves, k),
            Side::Left => draw_vertical_unit_bottom_up(moves, k),
        }
        assert(moves@ =~= before + repeat(side_unit(side, k as int), (i + 1) as nat));
        i = i + 1;
    }
}

/// Number of repeats along a side of `units` pattern lengths.
fn repeats_for(units: i32) -> (r: i64)
    ensures
        r == side_repeats(units as int),
{
    if units > 1 {
        units as i64 - 1
    } else {
        0
    }
}

/// The rectangular meander as one closed path, walked clockwise from the
/// start position.
pub fn draw_greek_key_patterns(config: &GreekKeyRectConfig) -> (r: RelativePath)
    requires
        config.wf(),
    ensures
        r.start.0 == config.start_position().0,
        r.start.1 == config.start_position().1,
        r.moves@ == rect_moves(
            config.key_unit_length as int,
            config.width_units as int,
            config.height_units as int,
        ),
{
    let start = config.get_start_position();
    let k = config.key_unit_length as i64;
    let reps_w = repeats_for(config.width_units);
    let reps_h = repeats_for(config.height_units);
    let mut moves: Vec<(i64, i64)> = Vec::new();
    moves.push((0, -k));
    draw_side(&mut moves, k, reps_w, Side::Top);
    moves.push((0, -(4 * k)));
    moves.push((k, 0));
    draw_side(&mut moves, k, reps_h, Side::Right);
    moves.push((4 * k, 0));
    moves.push((0, 5 * k));
    draw_side(&mut moves, k, reps_w, Side::Bottom);
    moves.push((-(5 * k), 0));
    draw_side(&mut moves, k, reps_h, Side::Left);
    assert(moves@ =~= rect_moves(
        config.key_unit_length as int,
        config.width_units as int,
        config.height_units as int,
    ));
    RelativePath { start, moves }
}

/// A frame rectangle: its top-left corner and the three moves along its top,
/// right and bottom edges; the closing line is the left edge.
pub struct FrameOutline {
    pub corner: (i64, i64),
    pub moves: Vec<(i128, i128)>,
}

/// The outline of the rectangle with top-left corner `(x, y)`, width `w` and
/// height `h`, walked clockwise.
pub fn draw_frame(x: i64, y: i64, w: i128, h: i128) -> (r: FrameOutline)
    requires
        w > i128::MIN,
    ensures
        r.corner == (x, y),
        r.moves@ == seq![(w, 0i128), (0i128, h), ((-w) as i128, 0i128)],
{
    let mut moves: Vec<(i128, i128)> = Vec::new();
    moves.push((w, 0));
    moves.push((0, h));
    moves.push((-w, 0));
    assert(moves@ =~= seq![(w, 0i128), (0i128, h), ((-w) as i128, 0i128)]);
    FrameOutline { corner: (x, y), moves }
}

/// The meander closes on itself: its moves add up to no displacement, so the
/// closing line ends where the path started.
pub proof fn lemma_rect_path_closes(k: int, w: int, h: int)
    requires
        unit_in_range(k),
    ensures
        displacement(rect_moves(k, w, h)) == (0int, 0int),
{
    let rw = side_repeats(w);
    let rh = side_repeats(h);
    let a = seq![off(0, -k)];
    let t = repeat(horizontal_unit(k), rw);
    let b = seq![off(0, -4 * k), off(k, 0)];
    let r = repeat(vertical_unit(k), rh);
    let c = seq![off(4 * k, 0), off(0, 5 * k)];
    let m = repeat(horizontal_unit_right_to_left(k), rw);
    let d = seq![off(-5 * k, 0)];
    let l = repeat(vertical_unit_bottom_up(k), rh);
    lemma_unit_displacements(k);
    lemma_corner_displacements(k);
    lemma_displacement_repeat(horizontal_unit(k), rw);
    lemma_displacement_repeat(vertical_unit(k), rh);
    lemma_displacement_repeat(horizontal_unit_right_to_left(k), rw);
    lemma_displacement_repeat(vertical_unit_bottom_up(k), rh);
    assert(rw * (5 * k) + rw * (-5 * k) == 0) by (nonlinear_arith);
    assert(rh * (5 * k) + rh * (-5 * k) == 0) by (nonlinear_arith);
    assert(rw * 0int == 0 && rh * 0int == 0);
    lemma_displacement_concat(a, t);
    assert(displacement(a + t) == (rw * (5 * k), -k));
    lemma_displacement_concat(a + t, b);
    assert(displacement(a + t + b) == (rw * (5 * k) + k, -5 * k));
    lemma_displacement_concat(a + t + b, r);
    assert(displacement(a + t + b + r) == (rw * (5 * k) + k, -5 * k + rh * (5 * k)));
    lemma_displacement_concat(a + t + b + r, c);
    assert(displacement(a + t + b + r + c) == (rw * (5 * k) + 5 * k, rh * (5 * k)));
    lemma_displacement_concat(a + t + b + r + c, m);
    assert(displacement(a + t + b + r + c + m) == (5 * k, rh * (5 * k)));
    lemma_displacement_concat(a + t + b + r + c + m, d);
    assert(displacement(a + t + b + r + c + m + d) == (0int, rh * (5 * k)));
    lemma_displacement_concat(a + t + b + r + c + m + d, l);
}

proof fn lemma_unit_displacements(k: int)
    requires
        unit_in_range(k),
    ensures
        displacement(horizontal_unit(k)) == (5 * k, 0int),
        displacement(vertical_unit(k)) == (0int, 5 * k),
        displacement(horizontal_unit_right_to_left(k)) == (-5 * k, 0int),
        displacement(vertical_unit_bottom_up(k)) == (0int, -5 * k),
{
    reveal_with_fuel(displacement, 11);
}

proof fn lemma_corner_displacements(k: int)
    requires
        unit_in_range(k),
    ensures
        displacement(seq![off(0, -k)]) == (0int, -k),
        displacement(seq![off(0, -4 * k), off(k, 0)]) == (k, -4 * k),
        displacement(seq![off(4 * k, 0), off(0, 5 * k)]) == (4 * k, 5 * k),
        displacement(seq![off(-5 * k, 0)]) == (-5 * k, 0int),
{
    reveal_with_fuel(displacement, 3);
}

/// The path has ten segments per motif on every side, six more at the corners
/// and the start, and the closing line.
pub proof fn lemma_rect_path_length(k: int, w: int, h: int)
    ensures
        rect_moves(k, w, h).len() == 6 + 20 * side_repeats(w) + 20 * side_repeats(h),
{
    lemma_repeat_len(horizontal_unit(k), side_repeats(w));
    lemma_repeat_len(vertical_unit(k), side_repeats(h));
    lemma_repeat_len(horizontal_unit_right_to_left(k), side_repeats(w));
    lemma_repeat_len(vertical_unit_bottom_up(k), side_repeats(h));
    assert(horizontal_unit(k).len() == 10);
    assert(vertical_unit(k).len() == 10);
    assert(horizontal_unit_right_to_left(k).len() == 10);
    assert(vertical_unit_bottom_up(k).len() == 10);
    assert(side_repeats(w) * 10 == 10 * side_repeats(w));
    assert(side_repeats(h) * 10 == 10 * side_repeats(h));
}

proof fn lemma_product_fits(a: int, b: int)
    requires
        -0x1_0000_0000 <= a <= 0x1_0000_0000,
        -0x10_0000_0000 <= b <= 0x10_0000_0000,
    ensures
        -0x10_0000_0000_0000_0000 <= a * b <= 0x10_0000_0000_0000_0000,
{
    assert(-0x10_0000_0000_0000_0000 <= a * b <= 0x10_0000_0000_0000_0000) by (nonlinear_arith)
        requires
            -0x1_0000_0000 <= a <= 0x1_0000_0000,
            -0x10_0000_0000 <= b <= 0x10_0000_0000,
    ;
}

impl GreekKeyRectConfig {
    /// Builds a configuration; the pattern length is five unit lengths.
    pub fn new(
        key_unit_length: i32,
        width_units: i32,
        height_units: i32,
        border_margin: i32,
        stroke_width: i32,
    ) -> (r: Self)
        ensures
            r.key_unit_length == key_unit_length,
            r.width_units == width_units,
            r.height_units == height_units,
            r.key_pattern_length == 5 * key_unit_length,
            r.border_margin == border_margin,
            r.stroke_width == stroke_width,
    {
        GreekKeyRectConfig {
            key_unit_length,
            width_units,
            height_units,
            key_pattern_length: key_unit_length as i64 * 5,
            border_margin,
            stroke_width,
        }
    }

    /// The pattern length is five unit lengths.
    pub open spec fn wf(&self) -> bool {
        self.key_pattern_length == 5 * self.key_unit_length
    }

    pub open spec fn canvas_width(&self) -> int {
        self.width_units * self.key_pattern_length + 2 * self.border_margin + 2
            * self.key_unit_length + 2 * self.stroke_width
    }

    pub open spec fn canvas_height(&self) -> int {
        self.height_units * self.key_pattern_length + 2 * self.border_margin + 2
            * self.key_unit_length + 2 * self.stroke_width
    }

    /// Width and height of the drawing.
    pub fn get_canvas_size(&self) -> (r: (i128, i128))
        requires
            self.wf(),
        ensures
            r.0 == self.canvas_width(),
            r.1 == self.canvas_height(),
    {
        let kpl = self.key_pattern_length as i128;
        let k = self.key_unit_length as i128;
        let bm = self.border_margin as i128;
        let sw = self.stroke_width as i128;
        proof {
            lemma_product_fits(self.width_units as int, kpl as int);
            lemma_product_fits(self.height_units as int, kpl as int);
        }
        let wk = self.width_units as i128 * kpl;
        let hk = self.height_units as i128 * kpl;
        (wk + 2 * bm + 2 * k + 2 * sw, hk + 2 * bm + 2 * k + 2 * sw)
    }

    pub open spec fn start_position(&self) -> (int, int) {
        (
            self.border_margin + self.key_unit_length + self.stroke_width,
            self.key_pattern_length + self.border_margin + self.key_unit_length
                + self.stroke_width,
        )
    }

    /// Where the meander starts: one unit in from the outer frame on the left,
    /// one pattern length and one unit down from its top.
    pub fn get_start_position(&self) -> (r: (i64, i64))
        requires
            self.wf(),
        ensures
            r.0 == self.start_position().0,
            r.1 == self.start_position().1,
    {
        let x = self.border_margin as i64 + self.key_unit_length as i64 + self.stroke_width as i64;
        let y = self.key_pattern_length + self.border_margin as i64 + self.key_unit_length as i64
            + self.stroke_width as i64;
        (x, y)
    }

    /// Outer frame: top-left corner, width and height.
    pub fn get_outer_frame_size(&self) -> (r: (i64, i64, i128, i128))
        requires
            self.wf(),
        ensures
            r.0 == self.border_margin + self.stroke_width,
            r.1 == self.border_margin + self.stroke_width,
            r.2 == self.width_units * self.key_pattern_length + 2 * self.key_unit_length,
            r.3 == self.height_units * self.key_pattern_length + 2 * self.key_unit_length,
    {
        let x = self.border_margin as i64 + self.stroke_width as i64;
        let kpl = self.key_pattern_length as i128;
        let k = self.key_unit_length as i128;
        proof {
            lemma_product_fits(self.width_units as int, kpl as int);
            lemma_product_fits(self.height_units as int, kpl as int);
        }
        let wk = self.width_units as i128 * kpl;
        let hk = self.height_units as i128 * kpl;
        (x, x, wk + 2 * k, hk + 2 * k)
    }

    /// Inner frame: top-left corner, width and height.
    pub fn get_inner_frame_size(&self) -> (r: (i64, i64, i128, i128))
        requires
            self.wf(),
        ensures
            r.0 == 6 * self.key_unit_length + self.border_margin + self.stroke_width,
            r.1 == 6 * self.key_unit_length + self.stroke_width,
            r.2 == (self.width_units - 2) * self.key_pattern_length,
            r.3 == (self.height_units - 2) * self.key_pattern_length,
    {
        let k = self.key_unit_length as i64;
        let x = 6 * k + self.border_margin as i64 + self.stroke_width as i64;
        let y = 6 * k + self.stroke_width as i64;
        let kpl = self.key_pattern_length as i128;
        let w = self.width_units as i128 - 2;
        let h = self.height_units as i128 - 2;
        proof {
            lemma_product_fits(w as int, kpl as int);
            lemma_product_fits(h as int, kpl as int);
        }
        let wk = w * kpl;
        let hk = h * kpl;
        (x, y, wk, hk)
    }
}

} // verus!
