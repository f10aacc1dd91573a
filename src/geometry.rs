//! Plane geometry in logical units, held as exact fixed-point integers.
//!
//! A coordinate counts thousandths of a logical (DPI-independent) unit, so
//! `Position::new(5_000, 5_500)` is the point (5.0, 5.5).
use vstd::prelude::*;

verus! {

/// Number of coordinate steps in one logical unit.
pub const UNIT: i64 = 1000;

/// Largest magnitude that a pointer coordinate may have.
pub const MAX_COORDINATE: i64 = 1_000_000_000_000;

/// Largest magnitude of a displacement between two admissible points.
pub const MAX_DISPLACEMENT: i64 = 2_000_000_000_000;

/// A point, or a displacement, in the plane.
#[derive(Clone, Copy, Debug, PartialEq, Eq, Structural)]
pub struct Position {
    pub x: i64,
    pub y: i64,
}

/// A width and height.
#[derive(Clone, Copy, Debug, PartialEq, Eq, Structural)]
pub struct Size {
    pub width: i64,
    pub height: i64,
}

/// A coordinate magnitude no larger than `bound`.
pub open spec fn within(v: i64, bound: i64) -> bool {
    -bound <= v <= bound
}

impl Position {
    /// The point is one that a pointer may report.
    pub open spec fn is_point(self) -> bool {
        within(self.x, MAX_COORDINATE) && within(self.y, MAX_COORDINATE)
    }

    /// The value is a displacement between two admissible points.
    pub open spec fn is_displacement(self) -> bool {
        within(self.x, MAX_DISPLACEMENT) && within(self.y, MAX_DISPLACEMENT)
    }

    pub open spec fn plus(self, o: Position) -> Position {
        Position { x: (self.x + o.x) as i64, y: (self.y + o.y) as i64 }
    }

    pub open spec fn minus(self, o: Position) -> Position {
        Position { x: (self.x - o.x) as i64, y: (self.y - o.y) as i64 }
    }

    /// Square of the straight-line distance to `o`.
    pub open spec fn distance_squared(self, o: Position) -> int {
        (o.x - self.x) * (o.x - self.x) + (o.y - self.y) * (o.y - self.y)
    }

    pub fn new(x: i64, y: i64) -> (r: Position)
        ensures
            r.x == x,
            r.y == y,
    {
        Position { x, y }
    }

    /// The origin, also the zero displacement.
    pub fn zero() -> (r: Position)
        ensures
            r.x == 0,
            r.y == 0,
    {
        Position { x: 0, y: 0 }
    }
}

impl Size {
    pub fn new(width: i64, height: i64) -> (r: Size)
        ensures
            r.width == width,
            r.height == height,
    {
        Size { width, height }
    }
}

/// Sum of two displacements, or of a point and a displacement.
pub fn add(p0: Position, p1: Position) -> (r: Position)
    requires
        p0.is_displacement(),
        p1.is_displacement(),
    ensures
        r == p0.plus(p1),
        r.x == p0.x + p1.x,
        r.y == p0.y + p1.y,
{
    Position { x: p0.x + p1.x, y: p0.y + p1.y }
}

/// Displacement from `p1` to `p0`.
pub fn subtract(p0: Position, p1: Position) -> (r: Position)
    requires
        p0.is_point(),
        p1.is_point(),
    ensures
        r == p0.minus(p1),
        r.x == p0.x - p1.x,
        r.y == p0.y - p1.y,
        r.is_displacement(),
{
    Position { x: p0.x - p1.x, y: p0.y - p1.y }
}

/// Square of the straight-line distance between two points, exactly.
pub fn distance_squared(p0: Position, p1: Position) -> (r: i128)
    requires
        p0.is_point(),
        p1.is_point(),
    ensures
        r == p0.distance_squared(p1),
        r >= 0,
{
    let dx: i128 = (p1.x as i128) - (p0.x as i128);
    let dy: i128 = (p1.y as i128) - (p0.y as i128);
    assert(0 <= dx * dx <= 4_000_000_000_000_000_000_000_000) by (nonlinear_arith)
        requires
            -2_000_000_000_000 <= dx <= 2_000_000_000_000,
    ;
    assert(0 <= dy * dy <= 4_000_000_000_000_000_000_000_000) by (nonlinear_arith)
        requires
            -2_000_000_000_000 <= dy <= 2_000_000_000_000,
    ;
    dx * dx + dy * dy
}

} // verus!
