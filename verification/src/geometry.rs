//! Geometry primitives: the screen-space rectangle and the saturating
//! coordinate arithmetic that layout computations are specified with.

use vstd::prelude::*;

verus! {

/// Smallest value an `i32` coordinate can take.
pub open spec fn coord_min() -> int {
    -0x8000_0000
}

/// Largest value an `i32` coordinate can take.
pub open spec fn coord_max() -> int {
    0x7fff_ffff
}

/// Largest value a `u32` extent can take.
pub open spec fn extent_max() -> int {
    0xffff_ffff
}

/// Clamp an unbounded coordinate into the `i32` range.
pub open spec fn sat_i32(v: int) -> int {
    if v < coord_min() {
        coord_min()
    } else if v > coord_max() {
        coord_max()
    } else {
        v
    }
}

/// Clamp an unbounded extent into the `u32` range.
pub open spec fn sat_u32(v: int) -> int {
    if v < 0 {
        0
    } else if v > extent_max() {
        extent_max()
    } else {
        v
    }
}

/// Clamp an unbounded value into the `i64` range.
pub open spec fn sat_i64(v: int) -> int {
    if v < -0x8000_0000_0000_0000 {
        -0x8000_0000_0000_0000
    } else if v > 0x7fff_ffff_ffff_ffff {
        0x7fff_ffff_ffff_ffff
    } else {
        v
    }
}

/// Add two `i64` values, saturating at the `i64` range.
pub fn i64_sat_add(a: i64, b: i64) -> (r: i64)
    ensures
        r == sat_i64(a + b),
{
    let wide: i128 = a as i128 + b as i128;
    if wide > i64::MAX as i128 {
        i64::MAX
    } else if wide < i64::MIN as i128 {
        i64::MIN
    } else {
        wide as i64
    }
}

/// Subtract two `i64` values, saturating at the `i64` range.
pub fn i64_sat_sub(a: i64, b: i64) -> (r: i64)
    ensures
        r == sat_i64(a - b),
{
    let wide: i128 = a as i128 - b as i128;
    if wide > i64::MAX as i128 {
        i64::MAX
    } else if wide < i64::MIN as i128 {
        i64::MIN
    } else {
        wide as i64
    }
}

/// Add an unsigned extent to a coordinate, saturating at the `i32` range.
pub fn coord_add(a: i32, b: u32) -> (r: i32)
    ensures
        r == sat_i32(a + b),
{
    let wide: i64 = a as i64 + b as i64;
    if wide > 0x7fff_ffff_i64 {
        0x7fff_ffff
    } else {
        wide as i32
    }
}

/// Subtract an unsigned extent from a coordinate, saturating at the `i32` range.
pub fn coord_sub(a: i32, b: u32) -> (r: i32)
    ensures
        r == sat_i32(a - b),
{
    let wide: i64 = a as i64 - b as i64;
    if wide < -0x8000_0000_i64 {
        -0x8000_0000
    } else {
        wide as i32
    }
}

/// Add two extents, saturating at the `u32` range.
pub fn extent_add(a: u32, b: u32) -> (r: u32)
    ensures
        r == sat_u32(a + b),
{
    let wide: u64 = a as u64 + b as u64;
    if wide > 0xffff_ffff_u64 {
        0xffff_ffff
    } else {
        wide as u32
    }
}

/// A screen-space rectangle: integer origin, unsigned width and height.
///
/// Width and height can never be negative; nothing more is assumed, so every
/// rectangle value is valid.
#[derive(Clone, Copy, Debug, PartialEq, Eq, Structural)]
pub struct Rect {
    pub x: i32,
    pub y: i32,
    pub w: u32,
    pub h: u32,
}

impl Rect {
    /// Build a rectangle from its origin and dimensions.
    pub fn new(x: i32, y: i32, w: u32, h: u32) -> (r: Rect)
        ensures
            r == (Rect { x, y, w, h }),
    {
        Rect { x, y, w, h }
    }

    /// Whether a point lies inside the rectangle. The left and top edges are
    /// inside, the right and bottom edges are outside.
    pub open spec fn spec_contains(self, px: int, py: int) -> bool {
        &&& self.x <= px < self.x + self.w
        &&& self.y <= py < self.y + self.h
    }

    /// Containment test for a point.
    pub fn contains(&self, p: (i32, i32)) -> (r: bool)
        ensures
            r == self.spec_contains(p.0 as int, p.1 as int),
    {
        let (px, py) = p;
        px as i64 >= self.x as i64 && (px as i64) < self.x as i64 + self.w as i64
            && py as i64 >= self.y as i64 && (py as i64) < self.y as i64 + self.h as i64
    }

    /// The center point, rounding toward the origin; saturated into the
    /// coordinate range.
    pub open spec fn spec_center(self) -> (int, int) {
        (sat_i32(self.x + self.w / 2), sat_i32(self.y + self.h / 2))
    }

    /// Center of the rectangle.
    pub fn center(&self) -> (c: (i32, i32))
        ensures
            c.0 == self.spec_center().0,
            c.1 == self.spec_center().1,
    {
        (coord_add(self.x, self.w / 2), coord_add(self.y, self.h / 2))
    }

    /// The rectangle of the given dimensions whose center is `center`,
    /// with the origin saturated into the coordinate range.
    pub open spec fn spec_from_center(center: (int, int), w: u32, h: u32) -> Rect {
        Rect {
            x: sat_i32(center.0 - w / 2) as i32,
            y: sat_i32(center.1 - h / 2) as i32,
            w,
            h,
        }
    }

    /// Build a rectangle of the given dimensions centered on a point.
    pub fn from_center(center: (i32, i32), w: u32, h: u32) -> (r: Rect)
        ensures
            r == Rect::spec_from_center((center.0 as int, center.1 as int), w, h),
    {
        Rect { x: coord_sub(center.0, w / 2), y: coord_sub(center.1, h / 2), w, h }
    }
}

} // verus!
