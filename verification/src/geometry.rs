//! Points, vectors and boxes on the integer grid.

use vstd::prelude::*;

verus! {

/// Grid steps in one field unit.
pub const UNIT: i64 = 1_000_000_000;

/// Largest magnitude of a coordinate, and largest side of a field, that a
/// state at rest between two ticks may hold: a thousand million field units.
pub const COORD_LIMIT: i64 = 1_000_000_000_000_000_000;

/// Largest magnitude of a coordinate in the middle of a tick, after the ball
/// has flown and before goals and walls have been resolved.
pub const REACH_LIMIT: i64 = 2_000_000_000_000_000_000;

/// Largest magnitude of a velocity component, in field units per second.
pub const SPEED_LIMIT: i64 = 1_000_000;

/// Longest tick, in nanoseconds: a thousand seconds.
pub const DT_LIMIT: u64 = 1_000_000_000_000;

/// A pair of mathematical integers: what a `Point` or a `Vector` stands for.
pub struct Vec2 {
    pub x: int,
    pub y: int,
}

/// Width and height as mathematical integers: what a `Field` stands for.
pub struct Extent {
    pub width: int,
    pub height: int,
}

/// Both components lie in `[-limit, limit]`.
pub open spec fn within(v: Vec2, limit: int) -> bool {
    -limit <= v.x <= limit && -limit <= v.y <= limit
}

/// A position, in grid steps.
#[derive(Clone, Copy, Debug, PartialEq, Eq, Structural)]
pub struct Point {
    pub x: i64,
    pub y: i64,
}

impl View for Point {
    type V = Vec2;

    open spec fn view(&self) -> Vec2 {
        Vec2 { x: self.x as int, y: self.y as int }
    }
}

impl Point {
    /// The point may be stored in a state between two ticks.
    pub open spec fn in_range(&self) -> bool {
        within(self@, COORD_LIMIT as int)
    }

    /// The point may occur in the middle of a tick.
    pub open spec fn in_reach(&self) -> bool {
        within(self@, REACH_LIMIT as int)
    }

    /// Tests `in_range`.
    pub fn is_in_range(&self) -> (r: bool)
        ensures
            r == self.in_range(),
    {
        -COORD_LIMIT <= self.x && self.x <= COORD_LIMIT && -COORD_LIMIT <= self.y
            && self.y <= COORD_LIMIT
    }
}

/// A velocity in field units per second, or the half extents of a box in
/// grid steps.
#[derive(Clone, Copy, Debug, PartialEq, Eq, Structural)]
pub struct Vector {
    pub x: i64,
    pub y: i64,
}

impl View for Vector {
    type V = Vec2;

    open spec fn view(&self) -> Vec2 {
        Vec2 { x: self.x as int, y: self.y as int }
    }
}

impl Vector {
    /// The vector may serve as a velocity.
    pub open spec fn in_range(&self) -> bool {
        within(self@, SPEED_LIMIT as int)
    }

    /// Tests `in_range`.
    pub fn is_in_range(&self) -> (r: bool)
        ensures
            r == self.in_range(),
    {
        -SPEED_LIMIT <= self.x && self.x <= SPEED_LIMIT && -SPEED_LIMIT <= self.y
            && self.y <= SPEED_LIMIT
    }
}

/// The playable rectangle: its corner is the origin, `y` grows downwards.
#[derive(Clone, Copy, Debug, PartialEq, Eq, Structural)]
pub struct Field {
    pub width: i64,
    pub height: i64,
}

impl View for Field {
    type V = Extent;

    open spec fn view(&self) -> Extent {
        Extent { width: self.width as int, height: self.height as int }
    }
}

/// Neither side is negative and neither exceeds `COORD_LIMIT`.
pub open spec fn extent_in_range(e: Extent) -> bool {
    0 <= e.width <= COORD_LIMIT && 0 <= e.height <= COORD_LIMIT
}

/// The middle of the field, each coordinate rounded down to the grid.
pub open spec fn center_of(e: Extent) -> Vec2 {
    Vec2 { x: e.width / 2, y: e.height / 2 }
}

impl Field {
    /// The field is one that a tick can be played on.
    pub open spec fn in_range(&self) -> bool {
        extent_in_range(self@)
    }

    /// Tests `in_range`.
    pub fn is_in_range(&self) -> (r: bool)
        ensures
            r == self.in_range(),
    {
        0 <= self.width && self.width <= COORD_LIMIT && 0 <= self.height
            && self.height <= COORD_LIMIT
    }

    /// The middle of the field.
    pub fn center(&self) -> (r: Point)
        requires
            self.in_range(),
        ensures
            r@ == center_of(self@),
            r.in_range(),
    {
        Point { x: self.width / 2, y: self.height / 2 }
    }
}

/// The value `low` when `value` lies below it, else `high` when `value` lies
/// above that, else `value`.
pub open spec fn clamped(value: int, low: int, high: int) -> int {
    if value < low {
        low
    } else if value > high {
        high
    } else {
        value
    }
}

/// Brings `value` into `[low, high]`. The lower bound is tested first, so
/// with `low > high` a value below `low` still gives `low`.
pub fn clamp(value: i64, low: i64, high: i64) -> (r: i64)
    ensures
        r == clamped(value as int, low as int, high as int),
{
    if value < low {
        low
    } else if value > high {
        high
    } else {
        value
    }
}

/// Between bounds in order a clamped value lies within them, and a value
/// that lies within them is left as it is.
pub proof fn lemma_clamped_within(value: int, low: int, high: int)
    requires
        low <= high,
    ensures
        low <= clamped(value, low, high) <= high,
        low <= value <= high ==> clamped(value, low, high) == value,
{
}

/// The magnitude of `v`.
pub fn magnitude(v: i64) -> (r: i64)
    requires
        v > i64::MIN,
    ensures
        r == vstd::math::abs(v as int),
{
    if v < 0 {
        -v
    } else {
        v
    }
}

/// Two axis-aligned boxes, each given by its centre and half extents, share
/// interior: on both axes each box begins strictly before the other ends.
pub open spec fn boxes_overlap(a: Vec2, a_half: Vec2, b: Vec2, b_half: Vec2) -> bool {
    &&& a.x - a_half.x < b.x + b_half.x
    &&& a.x + a_half.x > b.x - b_half.x
    &&& a.y - a_half.y < b.y + b_half.y
    &&& a.y + a_half.y > b.y - b_half.y
}

/// Tests two axis-aligned boxes for overlap.
pub fn overlaps(a: Point, a_half: Vector, b: Point, b_half: Vector) -> (r: bool)
    requires
        a.in_reach(),
        b.in_reach(),
        within(a_half@, COORD_LIMIT as int),
        within(b_half@, COORD_LIMIT as int),
    ensures
        r == boxes_overlap(a@, a_half@, b@, b_half@),
{
    a.x - a_half.x < b.x + b_half.x && a.x + a_half.x > b.x - b_half.x
        && a.y - a_half.y < b.y + b_half.y && a.y + a_half.y > b.y - b_half.y
}

} // verus!
