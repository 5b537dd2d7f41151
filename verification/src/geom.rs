//! Screen geometry: points, rectangles and alignment.

use vstd::prelude::*;

verus! {

/// Horizontal alignment of a drawn element relative to its anchor point.
#[derive(Debug, Clone, Copy, PartialEq, Eq, Structural)]
pub enum Alignment {
    Left,
    Center,
    Right,
}

/// A point on the screen, in pixels. Coordinates may be negative while an
/// element is being laid out off-screen.
#[derive(Debug, Clone, Copy, PartialEq, Eq, Structural)]
pub struct Point {
    pub x: i32,
    pub y: i32,
}

impl Point {
    pub fn new(x: i32, y: i32) -> (p: Point)
        ensures
            p.x == x,
            p.y == y,
    {
        Point { x, y }
    }

    pub fn zero() -> (p: Point)
        ensures
            p.x == 0,
            p.y == 0,
    {
        Point { x: 0, y: 0 }
    }
}

/// A screen rectangle: top-left corner plus extent.
#[derive(Debug, Clone, Copy, PartialEq, Eq, Structural)]
pub struct Rect {
    pub x: i32,
    pub y: i32,
    pub w: u32,
    pub h: u32,
}

impl Rect {
    pub fn new(x: i32, y: i32, w: u32, h: u32) -> (r: Rect)
        ensures
            r == (Rect { x, y, w, h }),
    {
        Rect { x, y, w, h }
    }

    pub fn zero() -> (r: Rect)
        ensures
            r == (Rect { x: 0, y: 0, w: 0, h: 0 }),
    {
        Rect { x: 0, y: 0, w: 0, h: 0 }
    }

    /// Right edge (exclusive), as a mathematical integer.
    pub open spec fn spec_right(self) -> int {
        self.x + self.w
    }

    /// Bottom edge (exclusive), as a mathematical integer.
    pub open spec fn spec_bottom(self) -> int {
        self.y + self.h
    }

    /// True when the rectangle lies in the on-screen quadrant of the signed
    /// 32-bit coordinate space, so that edge arithmetic cannot overflow.
    pub open spec fn in_bounds(self) -> bool {
        0 <= self.x && 0 <= self.y && self.spec_right() <= i32::MAX && self.spec_bottom()
            <= i32::MAX
    }

    /// The smallest rectangle that covers both `self` and `other`.
    pub fn union(&self, other: &Rect) -> (r: Rect)
        requires
            self.in_bounds(),
            other.in_bounds(),
        ensures
            r.x == if self.x <= other.x { self.x } else { other.x },
            r.y == if self.y <= other.y { self.y } else { other.y },
            r.spec_right() == if self.spec_right() >= other.spec_right() {
                self.spec_right()
            } else {
                other.spec_right()
            },
            r.spec_bottom() == if self.spec_bottom() >= other.spec_bottom() {
                self.spec_bottom()
            } else {
                other.spec_bottom()
            },
            r.in_bounds(),
    {
        let x = if self.x <= other.x {
            self.x
        } else {
            other.x
        };
        let y = if self.y <= other.y {
            self.y
        } else {
            other.y
        };
        let self_right = self.x + (self.w as i32);
        let other_right = other.x + (other.w as i32);
        let right = if self_right >= other_right {
            self_right
        } else {
            other_right
        };
        let self_bottom = self.y + (self.h as i32);
        let other_bottom = other.y + (other.h as i32);
        let bottom = if self_bottom >= other_bottom {
            self_bottom
        } else {
            other_bottom
        };
        Rect { x, y, w: (right - x) as u32, h: (bottom - y) as u32 }
    }

    /// True when `p` lies inside the rectangle.
    pub fn contains(&self, p: Point) -> (b: bool)
        requires
            self.in_bounds(),
        ensures
            b == (self.x <= p.x < self.spec_right() && self.y <= p.y < self.spec_bottom()),
    {
        self.x <= p.x && (p.x as i64) < (self.x as i64) + (self.w as i64) && self.y <= p.y && (
        p.y as i64) < (self.y as i64) + (self.h as i64)
    }
}

/// Signed addition clamped to the 32-bit range, for screen arithmetic.
pub open spec fn spec_sat_add(a: int, b: int) -> int {
    if a + b > i32::MAX {
        i32::MAX as int
    } else if a + b < i32::MIN {
        i32::MIN as int
    } else {
        a + b
    }
}

/// Adds screen coordinates without overflow.
pub fn sat_add(a: i32, b: i32) -> (r: i32)
    ensures
        r == spec_sat_add(a as int, b as int),
{
    let s: i64 = (a as i64) + (b as i64);
    if s > (i32::MAX as i64) {
        i32::MAX
    } else if s < (i32::MIN as i64) {
        i32::MIN
    } else {
        s as i32
    }
}

} // verus!
