//! Fixed-point plane geometry: positions, squared distances, integer square
//! roots, and the unit directions and movement steps the behaviors run on.

use vstd::prelude::*;
use vstd::arithmetic::div_mod::{
    lemma_div_by_multiple, lemma_div_is_ordered, lemma_div_nonincreasing,
};

verus! {

/// Grid steps per world unit: all positions, ranges and speeds are carried in
/// thousandths of a world unit.
pub const SCALE: i64 = 1000;

/// Positions are kept within this many grid steps of the origin on each axis;
/// movement clamps to this box so that squared distances always fit a `u64`.
pub const COORD_LIMIT: i64 = 1073741824;

/// Largest speed a stat may carry, in grid steps per second.
pub const SPEED_MAX: i64 = 1000000;

/// Largest simulation step, in milliseconds.
pub const DT_MAX: u64 = 60000;

/// A point or direction of the fixed-point plane.
#[derive(Clone, Copy, PartialEq, Eq, Structural, Debug)]
pub struct Vec2i {
    pub x: i64,
    pub y: i64,
}

pub open spec fn sq(d: int) -> int {
    d * d
}

impl Vec2i {
    /// The point lies inside the world box.
    pub open spec fn in_world(self) -> bool {
        &&& -COORD_LIMIT <= self.x <= COORD_LIMIT
        &&& -COORD_LIMIT <= self.y <= COORD_LIMIT
    }

    /// Both components are at most one world unit in magnitude: what holds of
    /// every fixed-point unit vector.
    pub open spec fn is_unit_box(self) -> bool {
        &&& -SCALE <= self.x <= SCALE
        &&& -SCALE <= self.y <= SCALE
    }
}

/// Squared distance between two points, in grid steps squared.
pub open spec fn dist_sq(a: Vec2i, b: Vec2i) -> int {
    sq(b.x - a.x) + sq(b.y - a.y)
}

/// Magnitude of `v` as a `u64`.
fn abs_i64(v: i64) -> (r: u64)
    requires
        v > i64::MIN,
    ensures
        r == vstd::math::abs(v as int),
{
    if v >= 0 {
        v as u64
    } else {
        (-v) as u64
    }
}

/// Squared distance, computed without overflow for points of the world box.
pub fn dist_sq_u64(a: Vec2i, b: Vec2i) -> (r: u64)
    requires
        a.in_world(),
        b.in_world(),
    ensures
        r == dist_sq(a, b),
{
    let dx: i64 = b.x - a.x;
    let dy: i64 = b.y - a.y;
    let ux: u64 = abs_i64(dx);
    let uy: u64 = abs_i64(dy);
    proof {
        assert(ux * ux == sq(dx as int) && ux * ux <= 0x4000000000000000) by (nonlinear_arith)
            requires
                ux == vstd::math::abs(dx as int),
                ux <= 0x80000000,
        ;
        assert(uy * uy == sq(dy as int) && uy * uy <= 0x4000000000000000) by (nonlinear_arith)
            requires
                uy == vstd::math::abs(dy as int),
                uy <= 0x80000000,
        ;
    }
    ux * ux + uy * uy
}

/// Integer square root: the largest `r` with `r * r <= n`, reached by
/// counting up from the root of `n - 1`.
pub open spec fn sqrt_floor(n: nat) -> nat
    decreases n,
{
    if n == 0 {
        0
    } else {
        let r = sqrt_floor((n - 1) as nat);
        if (r + 1) * (r + 1) <= n {
            r + 1
        } else {
            r
        }
    }
}

pub proof fn lemma_sqrt_floor_bounds(n: nat)
    ensures
        sqrt_floor(n) * sqrt_floor(n) <= n,
        n < (sqrt_floor(n) + 1) * (sqrt_floor(n) + 1),
    decreases n,
{
    if n == 0 {
        let s = sqrt_floor(n);
        assert(s == 0);
        assert(n < (s + 1) * (s + 1)) by (nonlinear_arith)
            requires
                s == 0,
                n == 0,
        ;
    } else {
        lemma_sqrt_floor_bounds((n - 1) as nat);
        let r = sqrt_floor((n - 1) as nat);
        if (r + 1) * (r + 1) <= n {
            assert(sqrt_floor(n) == r + 1);
            assert(n <= (r + 1) * (r + 1));
            assert((r + 1) * (r + 1) < (r + 2) * (r + 2)) by (nonlinear_arith)
                requires
                    r >= 0,
            ;
        } else {
            assert(sqrt_floor(n) == r);
        }
    }
}

/// The bounds `r * r <= n < (r + 1) * (r + 1)` pin the root down.
pub proof fn lemma_sqrt_floor_unique(n: nat, r: nat)
    requires
        r * r <= n,
        n < (r + 1) * (r + 1),
    ensures
        r == sqrt_floor(n),
{
    lemma_sqrt_floor_bounds(n);
    let s = sqrt_floor(n);
    if r < s {
        assert((r + 1) * (r + 1) <= s * s) by (nonlinear_arith)
            requires
                r < s,
        ;
        assert(false);
    }
    if s < r {
        assert((s + 1) * (s + 1) <= r * r) by (nonlinear_arith)
            requires
                s < r,
        ;
        assert(false);
    }
}

/// Integer square root of a `u64`, by binary search.
pub fn isqrt(n: u64) -> (r: u64)
    ensures
        r == sqrt_floor(n as nat),
        (r as int) * (r as int) <= n as int,
        (n as int) < (r as int + 1) * (r as int + 1),
{
    let mut lo: u64 = 0;
    let mut hi: u64 = 4294967296;
    proof {
        assert((hi as int) * (hi as int) > n as int) by (nonlinear_arith)
            requires
                hi == 4294967296,
                n <= u64::MAX,
        ;
    }
    while lo + 1 < hi
        invariant
            (lo as int) * (lo as int) <= n as int,
            (n as int) < (hi as int) * (hi as int),
            lo < hi,
            hi <= 4294967296,
        decreases hi - lo,
    {
        let mid: u64 = lo + (hi - lo) / 2;
        proof {
            assert((mid as int) * (mid as int) <= 0x10000000000000000) by (nonlinear_arith)
                requires
                    0 <= mid <= 0x100000000,
            ;
        }
        let m2: u128 = (mid as u128) * (mid as u128);
        if m2 <= n as u128 {
            lo = mid;
        } else {
            hi = mid;
        }
    }
    proof {
        lemma_sqrt_floor_unique(n as nat, lo as nat);
    }
    lo
}

/// Truncating division toward zero of `a` by a positive `b`.
pub open spec fn sdiv(a: int, b: int) -> int {
    if a >= 0 {
        a / b
    } else {
        -((-a) / b)
    }
}

/// Truncating signed division, carried out on magnitudes.
pub fn div_trunc(a: i64, b: u64) -> (r: i64)
    requires
        b >= 1,
        a > i64::MIN,
    ensures
        r == sdiv(a as int, b as int),
        a >= 0 ==> 0 <= r <= a,
        a < 0 ==> a <= r <= 0,
{
    if a >= 0 {
        let q: u64 = (a as u64) / b;
        proof {
            lemma_div_nonincreasing(a as int, b as int);
        }
        q as i64
    } else {
        let m: u64 = (-a) as u64;
        let q: u64 = m / b;
        proof {
            lemma_div_nonincreasing(m as int, b as int);
        }
        -(q as i64)
    }
}

/// One clamped coordinate of the world box.
pub open spec fn clamp_coord(v: int) -> int {
    if v < -COORD_LIMIT {
        -COORD_LIMIT as int
    } else if v > COORD_LIMIT {
        COORD_LIMIT as int
    } else {
        v
    }
}

/// One coordinate of a straight-line movement step:
/// `pos + dir * speed * dt / (SCALE * 1000)`, truncated toward zero and
/// clamped to the world box. `dir` is a fixed-point unit-vector component,
/// `speed` is in grid steps per second and `dt` in milliseconds.
pub open spec fn step_coord(pos: int, dir: int, speed: int, dt: int) -> int {
    clamp_coord(pos + sdiv(dir * speed * dt, 1000000))
}

fn move_coord(pos: i64, dir: i64, speed: i64, dt: u64) -> (r: i64)
    requires
        -COORD_LIMIT <= pos <= COORD_LIMIT,
        -SCALE <= dir <= SCALE,
        0 <= speed <= SPEED_MAX,
        dt <= DT_MAX,
    ensures
        r == step_coord(pos as int, dir as int, speed as int, dt as int),
        -COORD_LIMIT <= r <= COORD_LIMIT,
{
    proof {
        assert(-1000000000 <= dir * speed <= 1000000000) by (nonlinear_arith)
            requires
                -SCALE <= dir <= SCALE,
                0 <= speed <= SPEED_MAX,
        ;
    }
    let ds: i64 = dir * speed;
    proof {
        assert(-60000000000000i64 <= ds * (dt as int) <= 60000000000000i64) by (nonlinear_arith)
            requires
                -1000000000 <= ds <= 1000000000,
                0 <= dt <= DT_MAX,
        ;
    }
    let prod: i64 = ds * (dt as i64);
    let delta: i64 = div_trunc(prod, 1000000);
    let moved: i64 = pos + delta;
    if moved < -COORD_LIMIT {
        -COORD_LIMIT
    } else if moved > COORD_LIMIT {
        COORD_LIMIT
    } else {
        moved
    }
}

/// One straight-line movement step of a point, per `step_coord` on each axis.
pub fn move_point(pos: Vec2i, dir: Vec2i, speed: i64, dt: u64) -> (p: Vec2i)
    requires
        pos.in_world(),
        dir.is_unit_box(),
        0 <= speed <= SPEED_MAX,
        dt <= DT_MAX,
    ensures
        p.x == step_coord(pos.x as int, dir.x as int, speed as int, dt as int),
        p.y == step_coord(pos.y as int, dir.y as int, speed as int, dt as int),
        p.in_world(),
{
    Vec2i { x: move_coord(pos.x, dir.x, speed, dt), y: move_coord(pos.y, dir.y, speed, dt) }
}

/// Horizontal component of the fixed-point unit vector from `from` toward
/// `to`: the offset, scaled by `SCALE` and divided by the rounded-down
/// distance.
pub open spec fn unit_x(from: Vec2i, to: Vec2i) -> int {
    sdiv((to.x - from.x) * SCALE, sqrt_floor(dist_sq(from, to) as nat) as int)
}

/// Vertical component of the fixed-point unit vector from `from` toward `to`.
pub open spec fn unit_y(from: Vec2i, to: Vec2i) -> int {
    sdiv((to.y - from.y) * SCALE, sqrt_floor(dist_sq(from, to) as nat) as int)
}

/// A component of the offset never exceeds the rounded-down distance.
proof fn lemma_component_le_len(d: int, other: int, len: nat)
    requires
        sq(d) + sq(other) >= 1,
        sq(d) + sq(other) < (len + 1) * (len + 1),
    ensures
        vstd::math::abs(d) <= len,
        len >= 1,
{
    assert(vstd::math::abs(d) <= len && len >= 1) by (nonlinear_arith)
        requires
            sq(d) + sq(other) >= 1,
            sq(d) + sq(other) < (len + 1) * (len + 1),
            len >= 0,
    ;
}

/// The scaled quotient of a component by the distance stays within `SCALE`.
proof fn lemma_unit_component_bound(d: int, len: int)
    requires
        1 <= len,
        vstd::math::abs(d) <= len,
    ensures
        -SCALE <= sdiv(d * SCALE, len) <= SCALE,
{
    if d >= 0 {
        assert(d * SCALE <= len * SCALE && 0 <= d * SCALE) by (nonlinear_arith)
            requires
                0 <= d <= len,
        ;
        lemma_div_is_ordered(d * SCALE, len * SCALE, len);
        lemma_div_by_multiple(SCALE as int, len);
        assert(len * SCALE == SCALE * len) by (nonlinear_arith);
        vstd::arithmetic::div_mod::lemma_div_pos_is_pos(d * SCALE, len);
    } else {
        assert((-d) * SCALE <= len * SCALE && 0 <= (-d) * SCALE && -(d * SCALE) == (-d)
            * SCALE) by (nonlinear_arith)
            requires
                0 <= -d <= len,
        ;
        lemma_div_is_ordered((-d) * SCALE, len * SCALE, len);
        lemma_div_by_multiple(SCALE as int, len);
        assert(len * SCALE == SCALE * len) by (nonlinear_arith);
        vstd::arithmetic::div_mod::lemma_div_pos_is_pos((-d) * SCALE, len);
    }
}

/// Unit direction from `from` toward `to`, or `None` when the two points
/// coincide: a zero-length offset has no direction.
pub fn dir_toward(from: Vec2i, to: Vec2i) -> (r: Option<Vec2i>)
    requires
        from.in_world(),
        to.in_world(),
    ensures
        (from == to) <==> (r is None),
        r matches Some(d) ==> d.x == unit_x(from, to) && d.y == unit_y(from, to)
            && d.is_unit_box(),
{
    let d2: u64 = dist_sq_u64(from, to);
    if d2 == 0 {
        proof {
            assert(to.x == from.x && to.y == from.y) by (nonlinear_arith)
                requires
                    sq(to.x - from.x) + sq(to.y - from.y) == 0,
            ;
        }
        None
    } else {
        let len: u64 = isqrt(d2);
        proof {
            assert(to.x != from.x || to.y != from.y) by (nonlinear_arith)
                requires
                    sq(to.x - from.x) + sq(to.y - from.y) != 0,
            ;
            lemma_component_le_len(
                to.x - from.x,
                to.y - from.y,
                sqrt_floor(d2 as nat),
            );
            lemma_component_le_len(
                to.y - from.y,
                to.x - from.x,
                sqrt_floor(d2 as nat),
            );
            lemma_unit_component_bound(to.x - from.x, len as int);
            lemma_unit_component_bound(to.y - from.y, len as int);
        }
        let px: i64 = (to.x - from.x) * SCALE;
        let py: i64 = (to.y - from.y) * SCALE;
        let ux: i64 = div_trunc(px, len);
        let uy: i64 = div_trunc(py, len);
        Some(Vec2i { x: ux, y: uy })
    }
}

} // verus!
