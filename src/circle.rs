//! Circular meander: the seven concentric radii, the centre and canvas, and
//! the closed path as a sequence of vertices on rings and angular steps.
use vstd::prelude::*;

verus! {

/// Repeats of the circular pattern multiply into points around the circle by this.
pub const PATTERN_UNIT_SIZE: i64 = 5;

/// Fewest points around the circle for which every radius is positive.
pub const MIN_POINTS_AROUND: i64 = 19;

/// Why a configuration was rejected.
#[derive(PartialEq, Eq, Structural, Clone, Copy, Debug)]
pub enum ConfigError {
    /// Fewer than the least number of points around the circle.
    TooFewRepeats,
}

/// The concentric circles of the pattern, from the inner frame outwards.
#[derive(PartialEq, Eq, Structural, Clone, Copy, Debug)]
pub enum Ring {
    Inner,
    A,
    B,
    C,
    D,
    E,
    Outer,
}

/// Each radius is `(core_weight * r_c + outer_weight * r_o) / 3`; this is the
/// weight of the outer radius.
pub open spec fn outer_weight(ring: Ring) -> int {
    match ring {
        Ring::Inner => -3,
        Ring::A => -2,
        Ring::B => -1,
        Ring::C => 0,
        Ring::D => 1,
        Ring::E => 2,
        Ring::Outer => 3,
    }
}

/// Weight of the core radius `r_c`; the two weights add up to three.
pub open spec fn core_weight(ring: Ring) -> int {
    3 - outer_weight(ring)
}

/// Position of a ring, counting outwards from the inner frame.
pub open spec fn ring_rank(ring: Ring) -> int {
    outer_weight(ring) + 3
}

fn ring_outer_weight(ring: Ring) -> (r: i64)
    ensures
        r == outer_weight(ring),
{
    match ring {
        Ring::Inner => -3,
        Ring::A => -2,
        Ring::B => -1,
        Ring::C => 0,
        Ring::D => 1,
        Ring::E => 2,
        Ring::Outer => 3,
    }
}

/// The length `scale * (num + num_pi * pi) / (den + den_pi * pi)`, kept exact.
#[derive(PartialEq, Eq, Structural, Clone, Copy, Debug)]
pub struct PiRatio {
    pub scale: i64,
    pub num: i64,
    pub num_pi: i64,
    pub den: i64,
    pub den_pi: i64,
}

impl PiRatio {
    /// Numerator of the value when pi is taken as `pn / pd`, over the
    /// denominator `den_at(pn, pd)`.
    pub open spec fn num_at(self, pn: int, pd: int) -> int {
        self.scale * (self.num * pd + self.num_pi * pn)
    }

    pub open spec fn den_at(self, pn: int, pd: int) -> int {
        self.den * pd + self.den_pi * pn
    }
}

/// The radii of a circular pattern with outer radius `r_o` and `n` points
/// around the circle: `r_c = r_o / (6 pi / n + 1)`, and every other radius is
/// a weighted mean of `r_c` and `r_o`.
#[derive(PartialEq, Eq, Structural, Clone, Copy, Debug)]
pub struct Radii {
    pub r_o: i32,
    pub n: i64,
}

impl Radii {
    /// The radius of `ring`: `r_o * (n + 2 * w * pi) / (n + 6 * pi)`, with `w`
    /// the ring's outer weight.
    pub open spec fn spec_radius(self, ring: Ring) -> PiRatio {
        PiRatio {
            scale: self.r_o as i64,
            num: self.n,
            num_pi: (2 * outer_weight(ring)) as i64,
            den: self.n,
            den_pi: 6,
        }
    }

    pub fn radius(&self, ring: Ring) -> (r: PiRatio)
        ensures
            r == self.spec_radius(ring),
    {
        PiRatio {
            scale: self.r_o as i64,
            num: self.n,
            num_pi: 2 * ring_outer_weight(ring),
            den: self.n,
            den_pi: 6,
        }
    }
}

/// Radii for an outer radius and a number of points around the circle.
pub fn get_radii_for_outer_radius(r_o: i32, n: i64) -> (r: Result<Radii, ConfigError>)
    ensures
        n < MIN_POINTS_AROUND <==> r == Err::<Radii, ConfigError>(ConfigError::TooFewRepeats),
        n >= MIN_POINTS_AROUND <==> r == Ok::<Radii, ConfigError>(Radii { r_o, n }),
{
    if n < MIN_POINTS_AROUND {
        return Err(ConfigError::TooFewRepeats);
    }
    Ok(Radii { r_o, n })
}

/// Five points per repeat reach the least number of points around the circle
/// exactly from four repeats on.
pub proof fn lemma_enough_repeats(pattern_count: int)
    ensures
        PATTERN_UNIT_SIZE * pattern_count >= MIN_POINTS_AROUND <==> pattern_count >= 4,
{
}

/// Every radius is the weighted mean `(core_weight * r_c + outer_weight * r_o) / 3`
/// of the core radius and the outer radius, whatever value pi is given; the
/// outer ring's radius is `r_o` itself.
pub proof fn lemma_radius_is_weighted_mean(radii: Radii, ring: Ring, pn: int, pd: int)
    ensures
        radii.spec_radius(ring).den_at(pn, pd) == radii.spec_radius(Ring::C).den_at(pn, pd),
        3 * radii.spec_radius(ring).num_at(pn, pd) == core_weight(ring) * radii.spec_radius(
            Ring::C,
        ).num_at(pn, pd) + outer_weight(ring) * radii.r_o * radii.spec_radius(ring).den_at(pn, pd),
        radii.spec_radius(Ring::Outer).num_at(pn, pd) == radii.r_o * radii.spec_radius(
            Ring::Outer,
        ).den_at(pn, pd),
{
    let w = outer_weight(ring);
    let r = radii.r_o as int;
    let n = radii.n as int;
    assert(3 * (r * (n * pd + (2 * w) * pn)) == (3 - w) * (r * (n * pd + 0 * pn)) + w * r * (n
        * pd + 6 * pn)) by (nonlinear_arith);
}

/// For at least the least number of points around the circle and a positive
/// outer radius, the seven radii are positive and strictly increase from the
/// inner ring outwards, for every positive value `pn / pd` of pi up to 22/7
/// (pi itself is below 22/7).
pub proof fn lemma_radii_ordered(radii: Radii, lo: Ring, hi: Ring, pn: int, pd: int)
    requires
        radii.n >= MIN_POINTS_AROUND,
        radii.r_o > 0,
        pd > 0,
        pn > 0,
        7 * pn <= 22 * pd,
        ring_rank(lo) < ring_rank(hi),
    ensures
        radii.spec_radius(lo).den_at(pn, pd) > 0,
        radii.spec_radius(lo).den_at(pn, pd) == radii.spec_radius(hi).den_at(pn, pd),
        0 < radii.spec_radius(Ring::Inner).num_at(pn, pd),
        radii.spec_radius(lo).num_at(pn, pd) < radii.spec_radius(hi).num_at(pn, pd),
{
    let r = radii.r_o as int;
    let n = radii.n as int;
    let wl = outer_weight(lo);
    let wh = outer_weight(hi);
    assert(n * pd >= 19 * pd) by (nonlinear_arith)
        requires
            n >= 19,
            pd > 0,
    ;
    assert(n * pd - 6 * pn > 0);
    assert(r * (n * pd - 6 * pn) > 0) by (nonlinear_arith)
        requires
            r > 0,
            n * pd - 6 * pn > 0,
    ;
    assert(radii.spec_radius(Ring::Inner).num_at(pn, pd) == r * (n * pd + (-6) * pn));
    assert(r * (n * pd + (2 * wl) * pn) < r * (n * pd + (2 * wh) * pn)) by (nonlinear_arith)
        requires
            r > 0,
            pn > 0,
            wl < wh,
    ;
}

/// A point of the drawing, in whole units.
#[derive(PartialEq, Eq, Structural, Clone, Copy, Debug)]
pub struct Point {
    pub x: i64,
    pub y: i64,
}

/// A vertex of the circular meander: on the circle of `ring`, `step` angular
/// steps of `2 pi / n` clockwise from straight up.
#[derive(PartialEq, Eq, Structural, Clone, Copy, Debug)]
pub struct PolarPoint {
    pub ring: Ring,
    pub step: i64,
}

pub open spec fn pp(ring: Ring, step: int) -> PolarPoint {
    PolarPoint { ring, step: step as i64 }
}

/// The six points on `ring` from angular step `start` onwards.
pub open spec fn circle_points(ring: Ring, start: int) -> Seq<PolarPoint> {
    Seq::new(6, |i: int| pp(ring, start + i))
}

/// The six points built from the start point `p1` on `ring`: `p1` itself,
/// then the five points on `ring` at the following angular steps.
pub open spec fn points_from(p1: PolarPoint, ring: Ring) -> Seq<PolarPoint> {
    Seq::new(6, |i: int| if i == 0 { p1 } else { pp(ring, p1.step + i) })
}

/// One repeat of the motif, from the points of the five rings that start at
/// step `5 * k`: e0, e4, b4, b2, c2, c3, d3, d1, a1, a5.
pub open spec fn motif(k: int) -> Seq<PolarPoint> {
    let s = 5 * k;
    seq![
        pp(Ring::E, s), pp(Ring::E, s + 4), pp(Ring::B, s + 4), pp(Ring::B, s + 2),
        pp(Ring::C, s + 2), pp(Ring::C, s + 3), pp(Ring::D, s + 3), pp(Ring::D, s + 1),
        pp(Ring::A, s + 1), pp(Ring::A, s + 5),
    ]
}

/// The vertices after `m` repeats: the start on ring A at step 0, then each motif.
pub open spec fn circle_vertices(m: nat) -> Seq<PolarPoint>
    decreases m,
{
    if m == 0 {
        seq![pp(Ring::A, 0)]
    } else {
        circle_vertices((m - 1) as nat) + motif(m - 1)
    }
}

/// After `m` repeats the path has one start vertex and ten per repeat; it
/// starts on ring A at step 0 and ends on ring A at step `5 * m`. With `m` the
/// repeat count, `5 * m` steps are one full turn, so the last vertex is the
/// first one and the closing line has no length.
pub proof fn lemma_circle_path_ends(m: nat)
    requires
        5 * m <= i64::MAX,
    ensures
        circle_vertices(m).len() == 1 + 10 * m,
        circle_vertices(m)[0] == pp(Ring::A, 0),
        circle_vertices(m).last() == pp(Ring::A, (5 * m) as int),
    decreases m,
{
    if m > 0 {
        lemma_circle_path_ends((m - 1) as nat);
    }
}

/// Every segment of the path runs either along one ring or straight out from
/// the centre, and every vertex lies within the first `5 * m` steps.
pub proof fn lemma_circle_path_segments(m: nat, i: int)
    requires
        5 * m <= i64::MAX,
        0 <= i < circle_vertices(m).len(),
    ensures
        0 <= circle_vertices(m)[i].step <= 5 * m,
        i + 1 < circle_vertices(m).len() ==> (circle_vertices(m)[i].ring == circle_vertices(
            m,
        )[i + 1].ring || circle_vertices(m)[i].step == circle_vertices(m)[i + 1].step),
    decreases m,
{
    lemma_circle_path_ends(m);
    if m > 0 {
        let prev = circle_vertices((m - 1) as nat);
        lemma_circle_path_ends((m - 1) as nat);
        if i < prev.len() {
            lemma_circle_path_segments((m - 1) as nat, i);
        }
    }
}

/// Layout of a circular meander, in whole units of length.
pub struct GreekKeyCircleConfig {
    pub r_o: i32,
    pub pattern_count: i32,
    pub border_margin: i32,
    pub radii: Radii,
    pub stroke_width: i32,
}

impl GreekKeyCircleConfig {
    /// The radii belong to this outer radius and repeat count, and there are
    /// enough points around the circle.
    pub open spec fn wf(&self) -> bool {
        &&& self.radii.r_o == self.r_o
        &&& self.radii.n == PATTERN_UNIT_SIZE * self.pattern_count
        &&& self.pattern_count * PATTERN_UNIT_SIZE >= MIN_POINTS_AROUND
    }

    /// Builds a configuration, or fails when five points per repeat give
    /// fewer than the least number of points around the circle.
    pub fn new(r_o: i32, pattern_count: i32, border_margin: i32, stroke_width: i32) -> (r: Result<
        Self,
        ConfigError,
    >)
        ensures
            PATTERN_UNIT_SIZE * pattern_count < MIN_POINTS_AROUND ==> r is Err && r->Err_0
                == ConfigError::TooFewRepeats,
            PATTERN_UNIT_SIZE * pattern_count >= MIN_POINTS_AROUND ==> r is Ok,
            r is Ok ==> ({
                let c = r->Ok_0;
                &&& c.wf()
                &&& c.r_o == r_o
                &&& c.pattern_count == pattern_count
                &&& c.border_margin == border_margin
                &&& c.stroke_width == stroke_width
            }),
    {
        let n = PATTERN_UNIT_SIZE * pattern_count as i64;
        match get_radii_for_outer_radius(r_o, n) {
            Ok(radii) => Ok(GreekKeyCircleConfig {
                r_o,
                pattern_count,
                border_margin,
                radii,
                stroke_width,
            }),
            Err(e) => Err(e),
        }
    }

    pub open spec fn canvas_side(&self) -> int {
        2 * self.r_o + 2 * self.border_margin + 2 * self.stroke_width
    }

    /// The drawing is a square that holds the outer circle, the margin and the stroke.
    pub fn get_canvas_size(&self) -> (r: (i64, i64))
        ensures
            r.0 == self.canvas_side(),
            r.1 == self.canvas_side(),
    {
        let side = 2 * self.r_o as i64 + 2 * self.border_margin as i64 + 2
            * self.stroke_width as i64;
        (side, side)
    }

    pub open spec fn centre(&self) -> int {
        self.border_margin + self.r_o + self.stroke_width
    }

    /// The common centre of all the circles.
    pub fn get_centre(&self) -> (r: Point)
        ensures
            r.x == self.centre(),
            r.y == self.centre(),
    {
        let c = self.border_margin as i64 + self.r_o as i64 + self.stroke_width as i64;
        Point { x: c, y: c }
    }

    /// The point straight up from the centre on `ring`.
    pub fn get_start_position(&self, ring: Ring) -> (r: PolarPoint)
        ensures
            r == pp(ring, 0),
    {
        PolarPoint { ring, step: 0 }
    }

    /// The six points of each of the rings A to E from the given starting
    /// points: each array starts with its point and goes on along its own ring.
    pub fn get_coords_for_patterns_by_p0(
        &self,
        p_a0: PolarPoint,
        p_b0: PolarPoint,
        p_c0: PolarPoint,
        p_d0: PolarPoint,
        p_e0: PolarPoint,
    ) -> (r: (Vec<PolarPoint>, Vec<PolarPoint>, Vec<PolarPoint>, Vec<PolarPoint>, Vec<PolarPoint>))
        requires
            p_a0.step <= i64::MAX - 5,
            p_b0.step <= i64::MAX - 5,
            p_c0.step <= i64::MAX - 5,
            p_d0.step <= i64::MAX - 5,
            p_e0.step <= i64::MAX - 5,
        ensures
            r.0@ == points_from(p_a0, Ring::A),
            r.1@ == points_from(p_b0, Ring::B),
            r.2@ == points_from(p_c0, Ring::C),
            r.3@ == points_from(p_d0, Ring::D),
            r.4@ == points_from(p_e0, Ring::E),
    {
        (
            calculate_circle_points(p_a0, Ring::A),
            calculate_circle_points(p_b0, Ring::B),
            calculate_circle_points(p_c0, Ring::C),
            calculate_circle_points(p_d0, Ring::D),
            calculate_circle_points(p_e0, Ring::E),
        )
    }

    /// The six points of each of the rings A to E from straight up.
    pub fn get_coords_for_patterns(&self) -> (r: (
        Vec<PolarPoint>,
        Vec<PolarPoint>,
        Vec<PolarPoint>,
        Vec<PolarPoint>,
        Vec<PolarPoint>,
    ))
        ensures
            r.0@ == circle_points(Ring::A, 0),
            r.1@ == circle_points(Ring::B, 0),
            r.2@ == circle_points(Ring::C, 0),
            r.3@ == circle_points(Ring::D, 0),
            r.4@ == circle_points(Ring::E, 0),
    {
        self.get_coords_for_patterns_by_p0(
            self.get_start_position(Ring::A),
            self.get_start_position(Ring::B),
            self.get_start_position(Ring::C),
            self.get_start_position(Ring::D),
            self.get_start_position(Ring::E),
        )
    }
}

/// Six points, one angular step apart: `p1`, then five points on `ring`.
pub fn calculate_circle_points(p1: PolarPoint, ring: Ring) -> (r: Vec<PolarPoint>)
    requires
        p1.step <= i64::MAX - 5,
    ensures
        r@ == points_from(p1, ring),
{
    let mut points: Vec<PolarPoint> = Vec::new();
    points.push(p1);
    let mut i: i64 = 1;
    while i < 6
        invariant
            1 <= i <= 6,
            p1.step <= i64::MAX - 5,
            points@ == points_from(p1, ring).take(i as int),
        decreases 6 - i,
    {
        points.push(PolarPoint { ring, step: p1.step + i });
        i = i + 1;
        assert(points@ =~= points_from(p1, ring).take(i as int));
    }
    assert(points@ =~= points_from(p1, ring));
    points
}

/// The circular meander as one closed path: a move to the first vertex, a line
/// to each following vertex, and a closing line back.
pub fn draw_greek_key_patterns(config: &GreekKeyCircleConfig) -> (r: Vec<PolarPoint>)
    requires
        config.wf(),
    ensures
        r@ == circle_vertices(config.pattern_count as nat),
{
    let (mut points_a, mut points_b, mut points_c, mut points_d, mut points_e) =
        config.get_coords_for_patterns();
    let mut data: Vec<PolarPoint> = Vec::new();
    data.push(points_a[0]);
    assert(data@ =~= circle_vertices(0));
    let mut i: i32 = 0;
    while i < config.pattern_count
        invariant
            0 <= i <= config.pattern_count,
            config.wf(),
            points_a@ == circle_points(Ring::A, 5 * i),
            points_b@ == circle_points(Ring::B, 5 * i),
            points_c@ == circle_points(Ring::C, 5 * i),
            points_d@ == circle_points(Ring::D, 5 * i),
            points_e@ == circle_points(Ring::E, 5 * i),
            data@ == circle_vertices(i as nat),
        decreases config.pattern_count - i,
    {
        data.push(points_e[0]);
        data.push(points_e[4]);
        data.push(points_b[4]);
        data.push(points_b[2]);
        data.push(points_c[2]);
        data.push(points_c[3]);
        data.push(points_d[3]);
        data.push(points_d[1]);
        data.push(points_a[1]);
        data.push(points_a[5]);
        assert(data@ =~= circle_vertices((i + 1) as nat));
        let next = config.get_coords_for_patterns_by_p0(
            points_a[5],
            points_b[5],
            points_c[5],
            points_d[5],
            points_e[5],
        );
        points_a = next.0;
        points_b = next.1;
        points_c = next.2;
        points_d = next.3;
        points_e = next.4;
        i = i + 1;
        assert(points_a@ =~= circle_points(Ring::A, 5 * i));
        assert(points_b@ =~= circle_points(Ring::B, 5 * i));
        assert(points_c@ =~= circle_points(Ring::C, 5 * i));
        assert(points_d@ =~= circle_points(Ring::D, 5 * i));
        assert(points_e@ =~= circle_points(Ring::E, 5 * i));
    }
    data
}

} // verus!
