//! Points, extents and the axis-aligned box spanned by two points.
//!
//! All lengths are whole numbers of ticks, so every comparison and every
//! box computed here is exact.

use vstd::prelude::*;

verus! {

/// Number of ticks in one length unit.
pub const TICKS_PER_UNIT: i32 = 1_000_000;

/// A world-space position, each coordinate in ticks.
#[derive(Clone, Copy, Debug, PartialEq, Eq, Structural)]
pub struct Point3 {
    pub x: i32,
    pub y: i32,
    pub z: i32,
}

/// The size of a box along each axis, in ticks. Never negative.
#[derive(Clone, Copy, Debug, PartialEq, Eq, Structural)]
pub struct Extent3 {
    pub x: u32,
    pub y: u32,
    pub z: u32,
}

/// The smaller of two coordinates.
pub open spec fn min_coord(a: i32, b: i32) -> i32 {
    if b < a {
        b
    } else {
        a
    }
}

/// The distance between two coordinates on one axis.
pub open spec fn abs_diff_coord(a: i32, b: i32) -> u32 {
    if a >= b {
        (a - b) as u32
    } else {
        (b - a) as u32
    }
}

/// `r` is the largest whole number whose square does not exceed `n`.
pub open spec fn is_floor_sqrt(r: int, n: int) -> bool {
    &&& 0 <= r
    &&& r * r <= n
    &&& n < (r + 1) * (r + 1)
}

/// The whole part of the square root of `n`, for `n` not negative.
pub open spec fn spec_floor_sqrt(n: int) -> int {
    choose|r: int| is_floor_sqrt(r, n)
}

/// The smaller of two coordinates.
pub fn lesser(a: i32, b: i32) -> (m: i32)
    ensures
        m == min_coord(a, b),
{
    if b < a {
        b
    } else {
        a
    }
}

/// The distance between two coordinates on one axis.
pub fn abs_diff(a: i32, b: i32) -> (d: u32)
    ensures
        d == abs_diff_coord(a, b),
{
    if a >= b {
        (a as i64 - b as i64) as u32
    } else {
        (b as i64 - a as i64) as u32
    }
}

/// Squaring a distance on one axis gives the square of the signed difference.
pub proof fn lemma_abs_diff_square(a: i32, b: i32)
    ensures
        abs_diff_coord(a, b) * abs_diff_coord(a, b) == (a - b) * (a - b),
        abs_diff_coord(a, b) * abs_diff_coord(a, b) <= 0xFFFF_FFFF * 0xFFFF_FFFF,
{
    let d: int = abs_diff_coord(a, b) as int;
    let s: int = a - b;
    assert(d == s || d == -s);
    assert(d * d == s * s) by (nonlinear_arith)
        requires
            d == s || d == -s,
    ;
    assert(d * d <= 0xFFFF_FFFF * 0xFFFF_FFFF) by (nonlinear_arith)
        requires
            0 <= d <= 0xFFFF_FFFF,
    ;
}

/// The square of a `u32`, widened so that it cannot overflow.
fn square(d: u32) -> (s: u128)
    ensures
        s == d * d,
        s <= 0xFFFF_FFFF * 0xFFFF_FFFF,
{
    assert(d * d <= 0xFFFF_FFFF * 0xFFFF_FFFF) by (nonlinear_arith)
        requires
            0 <= d <= 0xFFFF_FFFF,
    ;
    let w: u128 = d as u128;
    w * w
}

/// The whole part of the square root of `n`.
pub fn floor_sqrt(n: u128) -> (r: u64)
    ensures
        is_floor_sqrt(r as int, n as int),
        r == spec_floor_sqrt(n as int),
{
    let mut lo: u128 = 0;
    let mut hi: u128 = 0x1_0000_0000_0000_0000;
    while hi - lo > 1
        invariant
            lo < hi <= 0x1_0000_0000_0000_0000,
            lo * lo <= n,
            n < hi * hi,
        decreases hi - lo,
    {
        let mid: u128 = lo + (hi - lo) / 2;
        assert(mid * mid <= 0xFFFF_FFFF_FFFF_FFFF * 0xFFFF_FFFF_FFFF_FFFF) by (nonlinear_arith)
            requires
                0 <= mid <= 0xFFFF_FFFF_FFFF_FFFF,
        ;
        if mid * mid <= n {
            lo = mid;
        } else {
            hi = mid;
        }
    }
    proof {
        lemma_floor_sqrt_unique(lo as int, spec_floor_sqrt(n as int), n as int);
    }
    lo as u64
}

/// A number has only one whole square root.
pub proof fn lemma_floor_sqrt_unique(r1: int, r2: int, n: int)
    requires
        is_floor_sqrt(r1, n),
        is_floor_sqrt(r2, n),
    ensures
        r1 == r2,
{
    if r1 < r2 {
        assert((r1 + 1) * (r1 + 1) <= r2 * r2) by (nonlinear_arith)
            requires
                0 <= r1,
                r1 + 1 <= r2,
        ;
    } else if r2 < r1 {
        assert((r2 + 1) * (r2 + 1) <= r1 * r1) by (nonlinear_arith)
            requires
                0 <= r2,
                r2 + 1 <= r1,
        ;
    }
}

/// Every number that is not negative has a whole square root.
pub proof fn lemma_floor_sqrt_exists(n: int)
    requires
        0 <= n,
    ensures
        is_floor_sqrt(spec_floor_sqrt(n), n),
    decreases n,
{
    if n == 0 {
        assert(is_floor_sqrt(0, n));
    } else {
        lemma_floor_sqrt_exists(n - 1);
        let r: int = spec_floor_sqrt(n - 1);
        if n < (r + 1) * (r + 1) {
            assert(is_floor_sqrt(r, n));
        } else {
            assert(n < (r + 2) * (r + 2)) by (nonlinear_arith)
                requires
                    n == (r + 1) * (r + 1),
                    0 <= r,
            ;
            assert(is_floor_sqrt(r + 1, n));
        }
    }
}

/// A whole number `d` reaches a whole threshold `t` exactly when its square
/// reaches the threshold's square.
pub proof fn lemma_square_order(d: int, t: int)
    requires
        0 <= d,
        0 <= t,
    ensures
        d * d >= t * t <==> d >= t,
        d * d <= t * t <==> d <= t,
{
    if d >= t {
        assert(d * d >= t * t) by (nonlinear_arith)
            requires
                0 <= t <= d,
        ;
    }
    if d < t {
        assert(d * d < t * t) by (nonlinear_arith)
            requires
                0 <= d < t,
        ;
    }
    if d <= t {
        assert(d * d <= t * t) by (nonlinear_arith)
            requires
                0 <= d <= t,
        ;
    }
    if d > t {
        assert(d * d > t * t) by (nonlinear_arith)
            requires
                0 <= t < d,
        ;
    }
}

impl Point3 {
    /// The point with the given coordinates.
    pub fn new(x: i32, y: i32, z: i32) -> (p: Point3)
        ensures
            p == (Point3 { x, y, z }),
    {
        Point3 { x, y, z }
    }

    /// On each axis, the smaller coordinate of the two points.
    pub open spec fn componentwise_min(self, other: Point3) -> Point3 {
        Point3 {
            x: min_coord(self.x, other.x),
            y: min_coord(self.y, other.y),
            z: min_coord(self.z, other.z),
        }
    }

    /// On each axis, the distance between the two points' coordinates.
    pub open spec fn componentwise_abs_diff(self, other: Point3) -> Extent3 {
        Extent3 {
            x: abs_diff_coord(self.x, other.x),
            y: abs_diff_coord(self.y, other.y),
            z: abs_diff_coord(self.z, other.z),
        }
    }

    /// The square of the Euclidean distance between two points.
    pub open spec fn spec_distance_squared(self, other: Point3) -> int {
        (self.x - other.x) * (self.x - other.x) + (self.y - other.y) * (self.y - other.y) + (self.z
            - other.z) * (self.z - other.z)
    }

    /// The square of the Euclidean distance between two points, in square ticks.
    pub fn distance_squared(&self, other: &Point3) -> (d: u128)
        ensures
            d == self.spec_distance_squared(*other),
    {
        proof {
            lemma_abs_diff_square(self.x, other.x);
            lemma_abs_diff_square(self.y, other.y);
            lemma_abs_diff_square(self.z, other.z);
        }
        let sx: u128 = square(abs_diff(self.x, other.x));
        let sy: u128 = square(abs_diff(self.y, other.y));
        let sz: u128 = square(abs_diff(self.z, other.z));
        sx + sy + sz
    }
}

impl Extent3 {
    /// The square of the length of the box diagonal.
    pub open spec fn spec_diagonal_squared(self) -> int {
        self.x * self.x + self.y * self.y + self.z * self.z
    }

    /// The square of the length of the box diagonal, in square ticks.
    pub fn diagonal_squared(&self) -> (d: u128)
        ensures
            d == self.spec_diagonal_squared(),
    {
        let sx: u128 = square(self.x);
        let sy: u128 = square(self.y);
        let sz: u128 = square(self.z);
        sx + sy + sz
    }

    /// The length of the box diagonal, rounded down to whole ticks.
    pub open spec fn spec_diagonal(self) -> int {
        spec_floor_sqrt(self.spec_diagonal_squared())
    }

    /// The length of the box diagonal, rounded down to whole ticks.
    pub fn diagonal(&self) -> (r: u64)
        ensures
            r == self.spec_diagonal(),
            is_floor_sqrt(r as int, self.spec_diagonal_squared()),
            r <= 0x2_0000_0000,
    {
        let r: u64 = floor_sqrt(self.diagonal_squared());
        proof {
            let n: int = self.spec_diagonal_squared();
            assert(self.x * self.x <= 0xFFFF_FFFF * 0xFFFF_FFFF) by (nonlinear_arith)
                requires
                    0 <= self.x <= 0xFFFF_FFFF,
            ;
            assert(self.y * self.y <= 0xFFFF_FFFF * 0xFFFF_FFFF) by (nonlinear_arith)
                requires
                    0 <= self.y <= 0xFFFF_FFFF,
            ;
            assert(self.z * self.z <= 0xFFFF_FFFF * 0xFFFF_FFFF) by (nonlinear_arith)
                requires
                    0 <= self.z <= 0xFFFF_FFFF,
            ;
            assert(n < 0x2_0000_0000 * 0x2_0000_0000);
            if r > 0x2_0000_0000 {
                assert(r * r >= 0x2_0000_0000 * 0x2_0000_0000) by (nonlinear_arith)
                    requires
                        r > 0x2_0000_0000,
                ;
            }
        }
        r
    }
}

/// An axis-aligned box: its minimum corner and its size along each axis.
#[derive(Clone, Copy, Debug, PartialEq, Eq, Structural)]
pub struct BoxGeometry {
    pub corner: Point3,
    pub extents: Extent3,
}

/// The box that has `p1` and `p2` as opposite corners.
pub open spec fn resolved(p1: Point3, p2: Point3) -> BoxGeometry {
    BoxGeometry { corner: p1.componentwise_min(p2), extents: p1.componentwise_abs_diff(p2) }
}

impl BoxGeometry {
    /// The far corner of the box is a representable point.
    pub open spec fn wf(self) -> bool {
        &&& self.corner.x + self.extents.x <= i32::MAX
        &&& self.corner.y + self.extents.y <= i32::MAX
        &&& self.corner.z + self.extents.z <= i32::MAX
    }

    /// The point halfway along each axis, rounded down to whole ticks.
    pub open spec fn spec_center(self) -> Point3 {
        Point3 {
            x: (self.corner.x + self.extents.x / 2) as i32,
            y: (self.corner.y + self.extents.y / 2) as i32,
            z: (self.corner.z + self.extents.z / 2) as i32,
        }
    }

    /// The box that has `p1` and `p2` as opposite corners: its minimum corner
    /// is the smaller coordinate on each axis, its extents are the distances
    /// between the coordinates.
    pub fn resolve(p1: Point3, p2: Point3) -> (g: BoxGeometry)
        ensures
            g.corner == p1.componentwise_min(p2),
            g.extents == p1.componentwise_abs_diff(p2),
            g == resolved(p1, p2),
            g.wf(),
    {
        BoxGeometry {
            corner: Point3 {
                x: lesser(p1.x, p2.x),
                y: lesser(p1.y, p2.y),
                z: lesser(p1.z, p2.z),
            },
            extents: Extent3 {
                x: abs_diff(p1.x, p2.x),
                y: abs_diff(p1.y, p2.y),
                z: abs_diff(p1.z, p2.z),
            },
        }
    }

    /// The centre of the box: the corner moved by half the extents.
    pub fn center(&self) -> (c: Point3)
        requires
            self.wf(),
        ensures
            c == self.spec_center(),
            c.x == self.corner.x + self.extents.x / 2,
            c.y == self.corner.y + self.extents.y / 2,
            c.z == self.corner.z + self.extents.z / 2,
    {
        Point3 {
            x: (self.corner.x as i64 + (self.extents.x / 2) as i64) as i32,
            y: (self.corner.y as i64 + (self.extents.y / 2) as i64) as i32,
            z: (self.corner.z as i64 + (self.extents.z / 2) as i64) as i32,
        }
    }
}

/// The box spanned by two points does not depend on the order in which the
/// points are given, and it is always well formed.
pub proof fn lemma_resolve_order_independent(p1: Point3, p2: Point3)
    ensures
        resolved(p1, p2) == resolved(p2, p1),
        resolved(p1, p2).wf(),
{
}

/// The box spanned by two points contains both of them: on each axis every
/// coordinate lies between the corner and the corner moved by the extents,
/// and one of the two points sits at each end.
pub proof fn lemma_resolve_bounds(p1: Point3, p2: Point3)
    ensures
        ({
            let g = resolved(p1, p2);
            &&& g.corner.x <= p1.x <= g.corner.x + g.extents.x
            &&& g.corner.x <= p2.x <= g.corner.x + g.extents.x
            &&& g.corner.y <= p1.y <= g.corner.y + g.extents.y
            &&& g.corner.y <= p2.y <= g.corner.y + g.extents.y
            &&& g.corner.z <= p1.z <= g.corner.z + g.extents.z
            &&& g.corner.z <= p2.z <= g.corner.z + g.extents.z
            &&& g.corner.x + g.extents.x == p1.x || g.corner.x + g.extents.x == p2.x
            &&& g.corner.y + g.extents.y == p1.y || g.corner.y + g.extents.y == p2.y
            &&& g.corner.z + g.extents.z == p1.z || g.corner.z + g.extents.z == p2.z
        }),
{
}

} // verus!
