//! Parametric path abstraction for slider shapes.
//!
//! A curve is a polyline of map-space points together with its arc length.
//! `position_at` maps a progress value in milli-units (0 is the path's
//! start, 1000 its end) to a point, interpolating linearly inside each
//! segment under a uniform parameterization.

use vstd::prelude::*;
use crate::math::{div_pos, div_trunc, spec_div_trunc};

verus! {

/// Largest coordinate magnitude, in map-space units.
pub const COORD_LIMIT: i64 = 0x100_0000;

/// Largest number of polyline points in a curve.
pub const POINTS_LIMIT: usize = 0x10000;

/// A point in map-space units.
#[derive(Clone, Copy, Debug, PartialEq, Eq, Structural)]
pub struct Pos {
    pub x: i64,
    pub y: i64,
}

pub open spec fn valid_pos(p: Pos) -> bool {
    -COORD_LIMIT <= p.x <= COORD_LIMIT && -COORD_LIMIT <= p.y <= COORD_LIMIT
}

/// Linear interpolation of one coordinate: `a + (b - a) * frac / 1000`,
/// with the division truncating toward zero as Rust's `/` does.
pub open spec fn spec_lerp_coord(a: int, b: int, frac: int) -> int {
    a + spec_div_trunc((b - a) * frac, 1000)
}

/// The interpolated value stays between `a` and `b`.
pub proof fn lemma_lerp_coord_between(a: int, b: int, frac: int)
    requires
        0 <= frac <= 1000,
    ensures
        a <= b ==> a <= spec_lerp_coord(a, b, frac) <= b,
        b <= a ==> b <= spec_lerp_coord(a, b, frac) <= a,
{
    let d = b - a;
    if a <= b {
        assert(0 <= d * frac <= d * 1000) by (nonlinear_arith)
            requires 0 <= d, 0 <= frac <= 1000,
        ;
        assert(0 <= d * frac / 1000 <= d) by (nonlinear_arith)
            requires 0 <= d * frac <= d * 1000,
        ;
    } else {
        let m = -d;
        assert(0 <= m * frac <= m * 1000) by (nonlinear_arith)
            requires 0 <= m, 0 <= frac <= 1000,
        ;
        assert(0 <= m * frac / 1000 <= m) by (nonlinear_arith)
            requires 0 <= m * frac <= m * 1000,
        ;
        assert((-d) * frac == -(d * frac)) by (nonlinear_arith);
    }
}

fn lerp_coord(a: i64, b: i64, frac: i64) -> (r: i64)
    requires
        -COORD_LIMIT <= a <= COORD_LIMIT,
        -COORD_LIMIT <= b <= COORD_LIMIT,
        0 <= frac <= 1000,
    ensures
        r == spec_lerp_coord(a as int, b as int, frac as int),
        a <= b ==> a <= r <= b,
        b <= a ==> b <= r <= a,
{
    proof {
        lemma_lerp_coord_between(a as int, b as int, frac as int);
    }
    let d = div_trunc((b - a) * frac, 1000);
    a + d
}

/// Milli-units of progress between two rasterization samples of a slider
/// body: one sample every 2.5 map-space units of arc length, floored to a
/// whole milli-unit, one single pair for a degenerate path.
pub open spec fn spec_sample_step(dist: int) -> int {
    if dist <= 2 {
        1000
    } else if dist > 2500 {
        1
    } else {
        2500int / dist
    }
}

fn sample_step(dist: i64) -> (s: i64)
    requires
        0 <= dist <= COORD_LIMIT,
    ensures
        s == spec_sample_step(dist as int),
        1 <= s <= 1000,
{
    if dist <= 2 {
        1000
    } else if dist > 2500 {
        1
    } else {
        proof {
            let d = dist as int;
            assert(1 <= 2500int / d <= 1000) by (nonlinear_arith)
                requires 3 <= d <= 2500,
            ;
        }
        div_pos(2500, dist)
    }
}

/// A slider path: a polyline plus its total arc length in map-space units.
/// The arc length is supplied by the beatmap collaborator; the engine only
/// reads it.
#[derive(Clone, Debug)]
pub struct Curve {
    pub points: Vec<Pos>,
    pub dist: i64,
}

impl Curve {
    /// The shape a well-formed curve keeps: at least two points, all
    /// bounded, and a bounded non-negative arc length.
    pub open spec fn wf(&self) -> bool {
        &&& 2 <= self.points@.len() <= POINTS_LIMIT
        &&& forall|i: int| 0 <= i < self.points@.len() ==> valid_pos(#[trigger] self.points@[i])
        &&& 0 <= self.dist <= COORD_LIMIT
    }

    /// The point a progress value in milli-units maps to, under a uniform
    /// parameterization of the polyline's segments.
    pub open spec fn spec_position_at(&self, t: int) -> Pos
        recommends
            self.wf(),
            0 <= t <= 1000,
    {
        let n = self.points@.len() - 1;
        let scaled = t * n;
        let idx = scaled / 1000;
        let frac = scaled % 1000;
        if idx >= n {
            self.points@[n]
        } else {
            Pos {
                x: spec_lerp_coord(
                    self.points@[idx].x as int,
                    self.points@[idx + 1].x as int,
                    frac,
                ) as i64,
                y: spec_lerp_coord(
                    self.points@[idx].y as int,
                    self.points@[idx + 1].y as int,
                    frac,
                ) as i64,
            }
        }
    }

    pub fn new(points: Vec<Pos>, dist: i64) -> (c: Curve)
        requires
            2 <= points@.len() <= POINTS_LIMIT,
            forall|i: int| 0 <= i < points@.len() ==> valid_pos(#[trigger] points@[i]),
            0 <= dist <= COORD_LIMIT,
        ensures
            c.wf(),
            c.points@ == points@,
            c.dist == dist,
    {
        Curve { points, dist }
    }

    /// Evaluate the path at a progress value in milli-units. Progress 0 is
    /// the path's start, 1000 its end.
    pub fn position_at(&self, t: i64) -> (p: Pos)
        requires
            self.wf(),
            0 <= t <= 1000,
        ensures
            p == self.spec_position_at(t as int),
            valid_pos(p),
            t == 0 ==> p == self.points@[0],
            t == 1000 ==> p == self.points@[self.points@.len() - 1],
    {
        let n = self.points.len() - 1;
        proof {
            assert(t * (n as int) <= 1000 * (n as int)) by (nonlinear_arith)
                requires 0 <= t <= 1000, 0 <= n,
            ;
            assert(0 <= t * (n as int)) by (nonlinear_arith)
                requires 0 <= t, 0 <= n,
            ;
            if t == 1000 {
                assert(1000 * (n as int) / 1000 == n) by (nonlinear_arith);
                assert(1000 * (n as int) % 1000 == 0) by (nonlinear_arith);
            }
            if t == 0 {
                assert(0 * (n as int) == 0) by (nonlinear_arith);
            }
        }
        let scaled: i64 = t * (n as i64);
        let idx: i64 = div_pos(scaled, 1000);
        let frac: i64 = scaled - idx * 1000;
        proof {
            assert(scaled % 1000 == scaled - scaled / 1000 * 1000);
            assert(0 <= scaled % 1000 < 1000);
        }
        if idx >= n as i64 {
            self.points[n]
        } else {
            let a = self.points[idx as usize];
            let b = self.points[idx as usize + 1];
            Pos { x: lerp_coord(a.x, b.x, frac), y: lerp_coord(a.y, b.y, frac) }
        }
    }

    /// Total arc length of the path, in map-space units.
    pub fn dist(&self) -> (d: i64)
        requires
            self.wf(),
        ensures
            d == self.dist,
            0 <= d <= COORD_LIMIT,
    {
        self.dist
    }

    /// Sample the path for rasterization: alternating points taken from the
    /// two ends toward the middle, one every `spec_sample_step` milli-units
    /// of progress, until the two cursors cross.
    pub fn body_sample_points(&self) -> (out: Vec<Pos>)
        requires
            self.wf(),
        ensures
            out@.len() == 2 * (500int / spec_sample_step(self.dist as int) + 1),
            forall|i: int| 0 <= i < out@.len() ==> #[trigger] out@[i] == {
                let step = spec_sample_step(self.dist as int);
                if i % 2 == 0 {
                    self.spec_position_at(i / 2 * step)
                } else {
                    self.spec_position_at(1000 - i / 2 * step)
                }
            },
    {
        let step = sample_step(self.dist);
        let ghost stp = step as int;
        let ghost pairs = 500 as int / stp + 1;
        let mut out: Vec<Pos> = Vec::new();
        let mut start: i64 = 0;
        let mut end: i64 = 1000;
        let ghost mut k: int = 0;
        proof {
            vstd::arithmetic::div_mod::lemma_div_pos_is_pos(500, stp);
        }
        while start <= end
            invariant
                self.wf(),
                1 <= stp <= 1000,
                step == stp,
                stp == spec_sample_step(self.dist as int),
                pairs == 500 as int / stp + 1,
                0 <= k,
                start == k * stp,
                end == 1000 - k * stp,
                out@.len() == 2 * k,
                k <= pairs,
                forall|i: int| 0 <= i < out@.len() ==> #[trigger] out@[i] == if i % 2 == 0 {
                    self.spec_position_at(i / 2 * stp)
                } else {
                    self.spec_position_at(1000 - i / 2 * stp)
                },
            decreases end - start + 2000,
        {
            proof {
                assert(0 <= k * stp) by (nonlinear_arith)
                    requires 0 <= k, 1 <= stp,
                ;
                assert(2 * (k * stp) <= 1000);
                assert(k * stp <= 500) by (nonlinear_arith)
                    requires 2 * (k * stp) <= 1000,
                ;
                vstd::arithmetic::div_mod::lemma_fundamental_div_mod_converse(
                    (k * stp) as int,
                    stp,
                    k,
                    0,
                );
                assert(k == k * stp / stp);
                vstd::arithmetic::div_mod::lemma_div_is_ordered((k * stp) as int, 500, stp);
                assert(k <= 500 as int / stp);
            }
            let p1 = self.position_at(start);
            let p2 = self.position_at(end);
            out.push(p1);
            out.push(p2);
            proof {
                assert(start == k * stp && k * stp <= 500);
                assert(0 <= start <= 500 && 500 <= end <= 1000);
                assert((k + 1) * stp == k * stp + stp) by (nonlinear_arith);
                k = k + 1;
            }
            start = start + step;
            end = end - step;
        }
        proof {
            assert(k * stp > 500) by (nonlinear_arith)
                requires 2 * (k * stp) > 1000,
            ;
            if k < pairs {
                assert(k <= 500 as int / stp);
                vstd::arithmetic::div_mod::lemma_fundamental_div_mod(500, stp);
                assert(k * stp <= (500 as int / stp) * stp) by (nonlinear_arith)
                    requires k <= 500 as int / stp, 1 <= stp,
                ;
                assert(false);
            }
        }
        out
    }

    /// Axis-aligned bounding box of the polyline, padded by `radius` on
    /// every side: the lowest and highest padded corner.
    pub fn bounding_box(&self, radius: i64) -> (r: (Pos, Pos))
        requires
            self.wf(),
            0 <= radius <= COORD_LIMIT,
        ensures
            forall|i: int| 0 <= i < self.points@.len() ==> {
                let p = #[trigger] self.points@[i];
                r.0.x <= p.x - radius && r.0.y <= p.y - radius
                    && p.x + radius <= r.1.x && p.y + radius <= r.1.y
            },
            exists|i: int| 0 <= i < self.points@.len()
                && (#[trigger] self.points@[i]).x - radius == r.0.x,
            exists|i: int| 0 <= i < self.points@.len()
                && (#[trigger] self.points@[i]).y - radius == r.0.y,
            exists|i: int| 0 <= i < self.points@.len()
                && (#[trigger] self.points@[i]).x + radius == r.1.x,
            exists|i: int| 0 <= i < self.points@.len()
                && (#[trigger] self.points@[i]).y + radius == r.1.y,
    {
        let first = self.points[0];
        let mut min_x: i64 = first.x;
        let mut min_y: i64 = first.y;
        let mut max_x: i64 = first.x;
        let mut max_y: i64 = first.y;
        let mut i: usize = 1;
        while i < self.points.len()
            invariant
                self.wf(),
                1 <= i <= self.points@.len(),
                forall|j: int| 0 <= j < i ==> {
                    let p = #[trigger] self.points@[j];
                    min_x <= p.x && min_y <= p.y && p.x <= max_x && p.y <= max_y
                },
                exists|j: int| 0 <= j < i && (#[trigger] self.points@[j]).x == min_x,
                exists|j: int| 0 <= j < i && (#[trigger] self.points@[j]).y == min_y,
                exists|j: int| 0 <= j < i && (#[trigger] self.points@[j]).x == max_x,
                exists|j: int| 0 <= j < i && (#[trigger] self.points@[j]).y == max_y,
            decreases self.points@.len() - i,
        {
            let p = self.points[i];
            if p.x < min_x {
                min_x = p.x;
            }
            if p.y < min_y {
                min_y = p.y;
            }
            if p.x > max_x {
                max_x = p.x;
            }
            if p.y > max_y {
                max_y = p.y;
            }
            i = i + 1;
        }
        (
            Pos { x: min_x - radius, y: min_y - radius },
            Pos { x: max_x + radius, y: max_y + radius },
        )
    }
}

} // verus!
