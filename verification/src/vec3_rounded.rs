//! Fixed-point 3D coordinates.
//!
//! All geometry in this crate lives on an integer grid: one world unit is
//! `GRID_SCALE` grid units, so a grid step corresponds to the rounding
//! resolution of the editor. Working on the grid keeps every geometric
//! predicate exact and decidable.

use vstd::prelude::*;

verus! {

/// Grid units per world unit.
pub const GRID_SCALE: i64 = 1000;

/// Bound on the magnitude of every coordinate a part may hold
/// (a machine limit: it keeps all derived products inside `i64`).
pub const COORD_LIMIT: i64 = 1_000_000;

/// Squared-distance tolerance under which two points count as the same
/// vertex: 1e-4 square world units, expressed in square grid units.
pub const EPS_SQ: i64 = 100;

/// Bound on the components of a winding normal: a cross product of two
/// differences of in-range coordinates never exceeds `2 * (2 * COORD_LIMIT)^2`.
pub const NORMAL_LIMIT: i64 = 8_000_000_000_000;

/// A 3D point or vector with fixed-point integer coordinates.
#[derive(Clone, Copy, Debug, Hash, PartialEq, Eq, Structural)]
pub struct Vec3Rounded {
    pub x: i64,
    pub y: i64,
    pub z: i64,
}

impl Vec3Rounded {
    /// True when every component is within the coordinate limit.
    pub open spec fn in_range(self) -> bool {
        &&& -COORD_LIMIT <= self.x <= COORD_LIMIT
        &&& -COORD_LIMIT <= self.y <= COORD_LIMIT
        &&& -COORD_LIMIT <= self.z <= COORD_LIMIT
    }

    /// True when every component is within the normal limit.
    pub open spec fn normal_in_range(self) -> bool {
        &&& -NORMAL_LIMIT <= self.x <= NORMAL_LIMIT
        &&& -NORMAL_LIMIT <= self.y <= NORMAL_LIMIT
        &&& -NORMAL_LIMIT <= self.z <= NORMAL_LIMIT
    }

    pub fn new(x: i64, y: i64, z: i64) -> (v: Vec3Rounded)
        ensures
            v == (Vec3Rounded { x, y, z }),
    {
        Vec3Rounded { x, y, z }
    }
}

/// The zero vector.
pub open spec fn v3_zero() -> Vec3Rounded {
    Vec3Rounded { x: 0, y: 0, z: 0 }
}

/// Exact squared distance between two points, as a mathematical integer.
pub open spec fn dist_sq(a: Vec3Rounded, b: Vec3Rounded) -> int {
    (a.x - b.x) * (a.x - b.x) + (a.y - b.y) * (a.y - b.y) + (a.z - b.z) * (a.z - b.z)
}

/// Two points are near when their squared distance is under the tolerance.
pub open spec fn near(a: Vec3Rounded, b: Vec3Rounded) -> bool {
    dist_sq(a, b) < EPS_SQ
}

/// Exact dot product, as a mathematical integer.
pub open spec fn dot(a: Vec3Rounded, b: Vec3Rounded) -> int {
    a.x * b.x + a.y * b.y + a.z * b.z
}

/// The three components of the exact cross product `a x b`.
pub open spec fn cross_x(a: Vec3Rounded, b: Vec3Rounded) -> int {
    a.y * b.z - a.z * b.y
}

pub open spec fn cross_y(a: Vec3Rounded, b: Vec3Rounded) -> int {
    a.z * b.x - a.x * b.z
}

pub open spec fn cross_z(a: Vec3Rounded, b: Vec3Rounded) -> int {
    a.x * b.y - a.y * b.x
}

/// Two vectors point the same way: both zero, or parallel with a positive
/// dot product. On the grid this is the exact counterpart of comparing
/// unit-normalized vectors within a tolerance.
pub open spec fn same_direction(a: Vec3Rounded, b: Vec3Rounded) -> bool {
    if a == v3_zero() || b == v3_zero() {
        a == v3_zero() && b == v3_zero()
    } else {
        cross_x(a, b) == 0 && cross_y(a, b) == 0 && cross_z(a, b) == 0 && dot(a, b) > 0
    }
}

/// Bounds on a product follow from bounds on its factors.
pub proof fn lemma_mul_bound(x: int, y: int, b1: int, b2: int)
    by (nonlinear_arith)
    requires
        0 <= b1,
        0 <= b2,
        -b1 <= x <= b1,
        -b2 <= y <= b2,
    ensures
        -(b1 * b2) <= x * y <= b1 * b2,
{
}

/// A square is never negative.
pub proof fn lemma_square_nonneg(x: int)
    by (nonlinear_arith)
    ensures
        0 <= x * x,
{
}

/// The square of a nonzero integer is positive.
pub proof fn lemma_square_pos(x: int)
    by (nonlinear_arith)
    requires
        x != 0,
    ensures
        x * x > 0,
{
}

/// Squared distance does not depend on the order of its endpoints.
pub proof fn lemma_dist_sq_symmetric(a: Vec3Rounded, b: Vec3Rounded)
    by (nonlinear_arith)
    ensures
        dist_sq(a, b) == dist_sq(b, a),
{
}

/// The square of a sum is at most twice the sum of the squares.
pub proof fn lemma_sum_square_bound(x: int, y: int)
    by (nonlinear_arith)
    ensures
        (x + y) * (x + y) <= 2 * (x * x) + 2 * (y * y),
{
}

/// A squared triangle inequality: the squared distance between two
/// points is at most twice the sum of their squared distances to any
/// third point.
pub proof fn lemma_dist_sq_triangle(a: Vec3Rounded, b: Vec3Rounded, c: Vec3Rounded)
    ensures
        dist_sq(a, c) <= 2 * dist_sq(a, b) + 2 * dist_sq(b, c),
{
    lemma_sum_square_bound(a.x - b.x, b.x - c.x);
    lemma_sum_square_bound(a.y - b.y, b.y - c.y);
    lemma_sum_square_bound(a.z - b.z, b.z - c.z);
    assert((a.x - c.x) * (a.x - c.x) == ((a.x - b.x) + (b.x - c.x)) * ((a.x - b.x) + (b.x - c.x)));
    assert((a.y - c.y) * (a.y - c.y) == ((a.y - b.y) + (b.y - c.y)) * ((a.y - b.y) + (b.y - c.y)));
    assert((a.z - c.z) * (a.z - c.z) == ((a.z - b.z) + (b.z - c.z)) * ((a.z - b.z) + (b.z - c.z)));
}

/// Law: every vector points the same way as itself.
pub proof fn lemma_same_direction_reflexive(a: Vec3Rounded)
    ensures
        same_direction(a, a),
{
    if a != v3_zero() {
        assert(cross_x(a, a) == 0);
        assert(cross_y(a, a) == 0);
        assert(cross_z(a, a) == 0);
        lemma_square_nonneg(a.x as int);
        lemma_square_nonneg(a.y as int);
        lemma_square_nonneg(a.z as int);
        if a.x != 0 {
            lemma_square_pos(a.x as int);
        } else if a.y != 0 {
            lemma_square_pos(a.y as int);
        } else {
            lemma_square_pos(a.z as int);
        }
        assert(dot(a, a) > 0);
    }
}

/// Law: pointing the same way is symmetric.
pub proof fn lemma_same_direction_symmetric(a: Vec3Rounded, b: Vec3Rounded)
    ensures
        same_direction(a, b) == same_direction(b, a),
{
    assert(cross_x(a, b) == -cross_x(b, a)) by (nonlinear_arith);
    assert(cross_y(a, b) == -cross_y(b, a)) by (nonlinear_arith);
    assert(cross_z(a, b) == -cross_z(b, a)) by (nonlinear_arith);
    assert(dot(a, b) == dot(b, a)) by (nonlinear_arith);
}

/// Decides whether every component is within the coordinate limit.
pub fn coord_in_range(p: &Vec3Rounded) -> (r: bool)
    ensures
        r == p.in_range(),
{
    -COORD_LIMIT <= p.x && p.x <= COORD_LIMIT && -COORD_LIMIT <= p.y && p.y <= COORD_LIMIT
        && -COORD_LIMIT <= p.z && p.z <= COORD_LIMIT
}

/// Computes the squared distance between two in-range points.
pub fn dist_sq_i64(a: &Vec3Rounded, b: &Vec3Rounded) -> (d: i64)
    requires
        a.in_range(),
        b.in_range(),
    ensures
        d == dist_sq(*a, *b),
{
    let dx = a.x - b.x;
    let dy = a.y - b.y;
    let dz = a.z - b.z;
    proof {
        lemma_mul_bound(dx as int, dx as int, 2_000_000, 2_000_000);
        lemma_mul_bound(dy as int, dy as int, 2_000_000, 2_000_000);
        lemma_mul_bound(dz as int, dz as int, 2_000_000, 2_000_000);
        lemma_square_nonneg(dx as int);
        lemma_square_nonneg(dy as int);
        lemma_square_nonneg(dz as int);
    }
    dx * dx + dy * dy + dz * dz
}

/// Decides whether two in-range points are near.
pub fn is_near(a: &Vec3Rounded, b: &Vec3Rounded) -> (r: bool)
    requires
        a.in_range(),
        b.in_range(),
    ensures
        r == near(*a, *b),
{
    dist_sq_i64(a, b) < EPS_SQ
}

/// Decides whether two normal-range vectors point the same way.
pub fn is_same_direction(a: &Vec3Rounded, b: &Vec3Rounded) -> (r: bool)
    requires
        a.normal_in_range(),
        b.normal_in_range(),
    ensures
        r == same_direction(*a, *b),
{
    let a_zero = a.x == 0 && a.y == 0 && a.z == 0;
    let b_zero = b.x == 0 && b.y == 0 && b.z == 0;
    if a_zero || b_zero {
        a_zero && b_zero
    } else {
        let ax = a.x as i128;
        let ay = a.y as i128;
        let az = a.z as i128;
        let bx = b.x as i128;
        let by = b.y as i128;
        let bz = b.z as i128;
        proof {
            lemma_mul_bound(ax as int, bx as int, NORMAL_LIMIT as int, NORMAL_LIMIT as int);
            lemma_mul_bound(ax as int, by as int, NORMAL_LIMIT as int, NORMAL_LIMIT as int);
            lemma_mul_bound(ax as int, bz as int, NORMAL_LIMIT as int, NORMAL_LIMIT as int);
            lemma_mul_bound(ay as int, bx as int, NORMAL_LIMIT as int, NORMAL_LIMIT as int);
            lemma_mul_bound(ay as int, by as int, NORMAL_LIMIT as int, NORMAL_LIMIT as int);
            lemma_mul_bound(ay as int, bz as int, NORMAL_LIMIT as int, NORMAL_LIMIT as int);
            lemma_mul_bound(az as int, bx as int, NORMAL_LIMIT as int, NORMAL_LIMIT as int);
            lemma_mul_bound(az as int, by as int, NORMAL_LIMIT as int, NORMAL_LIMIT as int);
            lemma_mul_bound(az as int, bz as int, NORMAL_LIMIT as int, NORMAL_LIMIT as int);
        }
        let cx = ay * bz - az * by;
        let cy = az * bx - ax * bz;
        let cz = ax * by - ay * bx;
        let d = ax * bx + ay * by + az * bz;
        cx == 0 && cy == 0 && cz == 0 && d > 0
    }
}

} // verus!
