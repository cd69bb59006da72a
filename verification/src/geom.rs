//! Primitive shapes and shape-versus-shape intersection tests.
//!
//! The box/circle predicate is deliberately an edge-proximity test: a box
//! collides with a circle if and only if every edge of the box, taken as a
//! line segment, has its nearest point to the circle centre within the
//! circle's radius.  The nearest point projects the centre onto the
//! segment's direction and clamps the projection parameter to the segment;
//! a degenerate zero-length segment yields its start point.

use vstd::prelude::*;

use crate::consts::{MAX_COORD, MAX_RADIUS, MAX_BOX_SIZE};
use crate::fxp::{fdiv, div_trunc};
use crate::vec2::{Vec2, Rot, sdist_sq, srot_apply};

verus! {

/// A circle: an asteroid's bounding shape.
#[derive(Clone, Copy, PartialEq, Eq, Structural, Debug)]
pub struct Circle {
    pub centre: Vec2,
    pub radius: i64,
}

/// A line segment between two points.
#[derive(Clone, Copy, PartialEq, Eq, Structural, Debug)]
pub struct Line {
    pub start: Vec2,
    pub end: Vec2,
}

/// An oriented rectangle: a projectile's bounding shape.
#[derive(Clone, Copy, PartialEq, Eq, Structural, Debug)]
pub struct OrientedBox {
    pub centre: Vec2,
    pub size: Vec2,
    pub rot: Rot,
}

/// Nearest point of the segment `(ax, ay)..(bx, by)` to the point
/// `(px, py)`: the projection onto the segment's direction with the
/// parameter clamped to the segment, the start point if degenerate.
pub open spec fn snearest(ax: int, ay: int, bx: int, by: int, px: int, py: int) -> (int, int) {
    let dx = bx - ax;
    let dy = by - ay;
    let d2 = dx * dx + dy * dy;
    let tnum = dx * (px - ax) + dy * (py - ay);
    if d2 == 0 {
        (ax, ay)
    } else if tnum <= 0 {
        (ax, ay)
    } else if tnum >= d2 {
        (bx, by)
    } else {
        (ax + fdiv(dx * tnum, d2), ay + fdiv(dy * tnum, d2))
    }
}

/// Whether the segment's nearest point to the circle centre lies strictly
/// within the circle's radius.
pub open spec fn sseg_near_circle(
    ax: int,
    ay: int,
    bx: int,
    by: int,
    cx: int,
    cy: int,
    r: int,
) -> bool {
    let n = snearest(ax, ay, bx, by, cx, cy);
    sdist_sq(n.0, n.1, cx, cy) < r * r
}

/// The edge-proximity box/circle collision predicate: all four edges of the
/// box (corners from centre, half-extents and rotation, connected in
/// order) are near the circle.
pub open spec fn sbox_circle_collides(
    bx: int,
    by: int,
    sx: int,
    sy: int,
    rc: int,
    rs: int,
    cx: int,
    cy: int,
    r: int,
) -> bool {
    let lx = srot_apply(rc, rs, fdiv(sx, 2), 0);
    let ly = srot_apply(rc, rs, 0, fdiv(sy, 2));
    let p0 = (bx + lx.0 + ly.0, by + lx.1 + ly.1);
    let p1 = (bx + lx.0 - ly.0, by + lx.1 - ly.1);
    let p2 = (bx - lx.0 - ly.0, by - lx.1 - ly.1);
    let p3 = (bx - lx.0 + ly.0, by - lx.1 + ly.1);
    sseg_near_circle(p0.0, p0.1, p1.0, p1.1, cx, cy, r) && sseg_near_circle(
        p1.0,
        p1.1,
        p2.0,
        p2.1,
        cx,
        cy,
        r,
    ) && sseg_near_circle(p2.0, p2.1, p3.0, p3.1, cx, cy, r) && sseg_near_circle(
        p3.0,
        p3.1,
        p0.0,
        p0.1,
        cx,
        cy,
        r,
    )
}

impl Circle {
    pub open spec fn wf(self) -> bool {
        self.centre.in_bounds() && 0 <= self.radius <= MAX_RADIUS
    }
}

impl Line {
    /// Segment endpoints stay within the widened geometry range (box
    /// corners reach a little past the world coordinate bound).
    pub open spec fn wf(self) -> bool {
        vstd::math::abs(self.start.x as int) <= MAX_COORD + 2 * MAX_BOX_SIZE && vstd::math::abs(
            self.start.y as int,
        ) <= MAX_COORD + 2 * MAX_BOX_SIZE && vstd::math::abs(self.end.x as int) <= MAX_COORD + 2
            * MAX_BOX_SIZE && vstd::math::abs(self.end.y as int) <= MAX_COORD + 2 * MAX_BOX_SIZE
    }

    /// Nearest point of the segment to `pt`.
    pub fn nearest_point(&self, pt: &Vec2) -> (n: Vec2)
        requires
            self.wf(),
            pt.in_bounds(),
        ensures
            (n.x as int, n.y as int) == snearest(
                self.start.x as int,
                self.start.y as int,
                self.end.x as int,
                self.end.y as int,
                pt.x as int,
                pt.y as int,
            ),
            vstd::math::abs(n.x as int) <= 3 * (MAX_COORD + 2 * MAX_BOX_SIZE),
            vstd::math::abs(n.y as int) <= 3 * (MAX_COORD + 2 * MAX_BOX_SIZE),
    {
        let dx = self.end.x as i128 - self.start.x as i128;
        let dy = self.end.y as i128 - self.start.y as i128;
        proof {
            crate::fxp::lemma_mul_abs_bound(dx as int, dx as int, 2_100_000_000,
                2_100_000_000);
            crate::fxp::lemma_mul_abs_bound(dy as int, dy as int, 2_100_000_000,
                2_100_000_000);
            crate::fxp::lemma_square_nonneg(dx as int);
            crate::fxp::lemma_square_nonneg(dy as int);
        }
        let d2 = dx * dx + dy * dy;
        let ex = pt.x as i128 - self.start.x as i128;
        let ey = pt.y as i128 - self.start.y as i128;
        proof {
            crate::fxp::lemma_mul_abs_bound(dx as int, ex as int, 2_100_000_000,
                2_100_000_000);
            crate::fxp::lemma_mul_abs_bound(dy as int, ey as int, 2_100_000_000,
                2_100_000_000);
        }
        let tnum = dx * ex + dy * ey;
        if d2 == 0 {
            self.start
        } else if tnum <= 0 {
            self.start
        } else if tnum >= d2 {
            self.end
        } else {
            let ghost adx = vstd::math::abs(dx as int) as int;
            let ghost ady = vstd::math::abs(dy as int) as int;
            proof {
                crate::fxp::lemma_mul_abs_bound(dx as int, tnum as int, 2_100_000_000,
                    8_820_000_000_000_000_000);
                crate::fxp::lemma_mul_abs_bound(dy as int, tnum as int, 2_100_000_000,
                    8_820_000_000_000_000_000);
                crate::fxp::lemma_mul_abs_bound(dx as int, tnum as int, adx, d2 as int);
                crate::fxp::lemma_mul_abs_bound(dy as int, tnum as int, ady, d2 as int);
                crate::fxp::lemma_fdiv_magnitude(dx as int * tnum as int, d2 as int, adx);
                crate::fxp::lemma_fdiv_magnitude(dy as int * tnum as int, d2 as int, ady);
            }
            let ox = div_trunc(dx * tnum, d2);
            let oy = div_trunc(dy * tnum, d2);
            Vec2 { x: (self.start.x as i128 + ox) as i64, y: (self.start.y as i128 + oy) as i64 }
        }
    }

    /// Whether the segment passes within the circle's radius of its centre.
    pub fn collide(&self, circle: &Circle) -> (hit: bool)
        requires
            self.wf(),
            circle.wf(),
        ensures
            hit == sseg_near_circle(
                self.start.x as int,
                self.start.y as int,
                self.end.x as int,
                self.end.y as int,
                circle.centre.x as int,
                circle.centre.y as int,
                circle.radius as int,
            ),
    {
        let n = self.nearest_point(&circle.centre);
        let ddx = n.x as i128 - circle.centre.x as i128;
        let ddy = n.y as i128 - circle.centre.y as i128;
        proof {
            crate::fxp::lemma_mul_abs_bound(ddx as int, ddx as int, 4_200_000_000,
                4_200_000_000);
            crate::fxp::lemma_mul_abs_bound(ddy as int, ddy as int, 4_200_000_000,
                4_200_000_000);
            crate::fxp::lemma_square_nonneg(ddx as int);
            crate::fxp::lemma_square_nonneg(ddy as int);
            crate::fxp::lemma_mul_abs_bound(circle.radius as int, circle.radius as int,
                1_000_000, 1_000_000);
        }
        let dist2 = ddx * ddx + ddy * ddy;
        let r2 = circle.radius as i128 * circle.radius as i128;
        dist2 < r2
    }
}

impl OrientedBox {
    pub open spec fn wf(self) -> bool {
        self.centre.in_bounds() && 0 <= self.size.x <= MAX_BOX_SIZE && 0 <= self.size.y
            <= MAX_BOX_SIZE && self.rot.loosely_bounded()
    }

    /// The edge-proximity collision test of the box against a circle.
    #[verifier::rlimit(60)]
    pub fn collide(&self, circle: &Circle) -> (hit: bool)
        requires
            self.wf(),
            circle.wf(),
        ensures
            hit == sbox_circle_collides(
                self.centre.x as int,
                self.centre.y as int,
                self.size.x as int,
                self.size.y as int,
                self.rot.c as int,
                self.rot.s as int,
                circle.centre.x as int,
                circle.centre.y as int,
                circle.radius as int,
            ),
    {
        let hx = div_trunc(self.size.x as i128, 2) as i64;
        let hy = div_trunc(self.size.y as i128, 2) as i64;
        proof {
            crate::fxp::lemma_fdiv_within(self.size.x as int, 2);
            crate::fxp::lemma_fdiv_within(self.size.y as int, 2);
        }
        let lx = self.rot.apply(Vec2::new(hx, 0));
        let ly = self.rot.apply(Vec2::new(0, hy));
        let p0 = Vec2 { x: self.centre.x + lx.x + ly.x, y: self.centre.y + lx.y + ly.y };
        let p1 = Vec2 { x: self.centre.x + lx.x - ly.x, y: self.centre.y + lx.y - ly.y };
        let p2 = Vec2 { x: self.centre.x - lx.x - ly.x, y: self.centre.y - lx.y - ly.y };
        let p3 = Vec2 { x: self.centre.x - lx.x + ly.x, y: self.centre.y - lx.y + ly.y };
        let e0 = Line { start: p0, end: p1 };
        let e1 = Line { start: p1, end: p2 };
        let e2 = Line { start: p2, end: p3 };
        let e3 = Line { start: p3, end: p0 };
        e0.collide(circle) && e1.collide(circle) && e2.collide(circle) && e3.collide(circle)
    }
}

} // verus!
