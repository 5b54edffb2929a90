//! Points and rectangles in screen coordinates, with the clamping rules of
//! the SDL2 bindings: positions stay within half the `i32` range and sizes
//! are at least one and at most half the `i32` range.

use vstd::prelude::*;

verus! {

/// Largest coordinate or size a point or rectangle may hold.
pub const MAX_COORD: i32 = 1073741823;

/// Smallest coordinate a point or rectangle may hold.
pub const MIN_COORD: i32 = -1073741824;

/// A coordinate brought into `[MIN_COORD, MAX_COORD]`.
pub open spec fn clamped_position(v: int) -> int {
    if v > MAX_COORD as int {
        MAX_COORD as int
    } else if v < MIN_COORD as int {
        MIN_COORD as int
    } else {
        v
    }
}

/// A size brought into `[1, MAX_COORD]`.
pub open spec fn clamped_size(v: int) -> int {
    if v == 0 {
        1
    } else if v > MAX_COORD as int {
        MAX_COORD as int
    } else {
        v
    }
}

pub open spec fn in_coord_range(v: int) -> bool {
    MIN_COORD as int <= v <= MAX_COORD as int
}

/// Clamps a coordinate, computed with room to spare, into the position range.
pub fn clamp_position(v: i64) -> (r: i32)
    ensures
        r as int == clamped_position(v as int),
{
    if v > MAX_COORD as i64 {
        MAX_COORD
    } else if v < MIN_COORD as i64 {
        MIN_COORD
    } else {
        v as i32
    }
}

/// Clamps a width or height into the size range.
pub fn clamp_size(v: u32) -> (r: u32)
    ensures
        r as int == clamped_size(v as int),
        1 <= r <= MAX_COORD,
{
    if v == 0 {
        1
    } else if v > MAX_COORD as u32 {
        MAX_COORD as u32
    } else {
        v
    }
}

/// A point on the screen or in the world.
#[derive(Clone, Copy, Debug, PartialEq, Eq, Structural)]
pub struct Point {
    pub x: i32,
    pub y: i32,
}

impl Point {
    /// Both coordinates lie in the position range.
    pub open spec fn wf(&self) -> bool {
        in_coord_range(self.x as int) && in_coord_range(self.y as int)
    }

    /// The point `(x, y)` with both coordinates clamped.
    pub fn new(x: i32, y: i32) -> (r: Point)
        ensures
            r.x as int == clamped_position(x as int),
            r.y as int == clamped_position(y as int),
            r.wf(),
    {
        Point { x: clamp_position(x as i64), y: clamp_position(y as i64) }
    }

    /// This point shifted by `(dx, dy)`; each sum is clamped to the position
    /// range, an overflowing sum included.
    pub fn offset(&self, dx: i32, dy: i32) -> (r: Point)
        ensures
            r.x as int == clamped_position(self.x + dx),
            r.y as int == clamped_position(self.y + dy),
            r.wf(),
    {
        Point { x: clamp_position(self.x as i64 + dx as i64), y: clamp_position(self.y as i64 + dy as i64) }
    }
}

/// An axis-aligned rectangle: top-left corner and size.
#[derive(Clone, Copy, Debug, PartialEq, Eq, Structural)]
pub struct Rect {
    pub x: i32,
    pub y: i32,
    pub w: u32,
    pub h: u32,
}

impl Rect {
    /// Corner in the position range, size in `[1, MAX_COORD]`.
    pub open spec fn wf(&self) -> bool {
        &&& in_coord_range(self.x as int)
        &&& in_coord_range(self.y as int)
        &&& 1 <= self.w <= MAX_COORD
        &&& 1 <= self.h <= MAX_COORD
    }

    /// The rectangle with corner `(x, y)` and size `width` by `height`, the
    /// corner clamped to the position range and the size to `[1, MAX_COORD]`.
    pub fn new(x: i32, y: i32, width: u32, height: u32) -> (r: Rect)
        ensures
            r.x as int == clamped_position(x as int),
            r.y as int == clamped_position(y as int),
            r.w as int == clamped_size(width as int),
            r.h as int == clamped_size(height as int),
            r.wf(),
    {
        Rect { x: clamp_position(x as i64), y: clamp_position(y as i64), w: clamp_size(width), h: clamp_size(height) }
    }

    /// A rectangle of the clamped size whose corner is the clamped `center`
    /// less half the size, clamped again.
    pub fn from_center(center: Point, width: u32, height: u32) -> (r: Rect)
        ensures
            r.w as int == clamped_size(width as int),
            r.h as int == clamped_size(height as int),
            r.x as int == clamped_position(clamped_position(center.x as int) - r.w as int / 2),
            r.y as int == clamped_position(clamped_position(center.y as int) - r.h as int / 2),
            r.wf(),
    {
        let w = clamp_size(width);
        let h = clamp_size(height);
        let cx = clamp_position(center.x as i64);
        let cy = clamp_position(center.y as i64);
        Rect {
            x: clamp_position(cx as i64 - (w / 2) as i64),
            y: clamp_position(cy as i64 - (h / 2) as i64),
            w,
            h,
        }
    }

    pub fn x(&self) -> (r: i32)
        ensures
            r == self.x,
    {
        self.x
    }

    pub fn y(&self) -> (r: i32)
        ensures
            r == self.y,
    {
        self.y
    }

    pub fn width(&self) -> (r: u32)
        ensures
            r == self.w,
    {
        self.w
    }

    pub fn height(&self) -> (r: u32)
        ensures
            r == self.h,
    {
        self.h
    }

    /// Width and height.
    pub fn size(&self) -> (r: (u32, u32))
        ensures
            r == (self.w, self.h),
    {
        (self.w, self.h)
    }
}

} // verus!
