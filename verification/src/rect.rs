use crate::vector::Vec2;
use vstd::prelude::*;

verus! {

/// Spec-level minimum of two integers.
pub open spec fn min_int(a: int, b: int) -> int {
    if a < b {
        a
    } else {
        b
    }
}

/// Spec-level maximum of two integers.
pub open spec fn max_int(a: int, b: int) -> int {
    if a > b {
        a
    } else {
        b
    }
}

/// An axis-aligned rectangle anchored at its top-left corner `(x, y)` with
/// extents `width` and `height`; `y` increases downward. No sign invariant
/// is enforced on the extents, but intersection semantics are meaningful
/// only for non-negative ones.
#[derive(Copy, Clone, Debug)]
pub struct Rect {
    pub x: i64,
    pub y: i64,
    pub width: i64,
    pub height: i64,
}

impl Rect {
    /// The x coordinate of the right side, as a mathematical integer.
    pub open spec fn spec_right(&self) -> int {
        self.x + self.width
    }

    /// The y coordinate of the bottom, as a mathematical integer.
    pub open spec fn spec_bottom(&self) -> int {
        self.y + self.height
    }

    /// Width of the overlap of two rectangles; negative when they are
    /// disjoint along the x axis.
    pub open spec fn spec_x_overlap(&self, other: Rect) -> int {
        min_int(self.spec_right(), other.spec_right()) - max_int(self.x as int, other.x as int)
    }

    /// Height of the overlap of two rectangles; negative when they are
    /// disjoint along the y axis.
    pub open spec fn spec_y_overlap(&self, other: Rect) -> int {
        min_int(self.spec_bottom(), other.spec_bottom()) - max_int(self.y as int, other.y as int)
    }

    /// The overlap area of two rectangles: the product of the two overlap
    /// extents when both are non-negative, and `0` when the rectangles are
    /// disjoint along either axis.
    pub open spec fn spec_intersect_area(&self, other: Rect) -> int {
        if self.spec_x_overlap(other) < 0 || self.spec_y_overlap(other) < 0 {
            0
        } else {
            self.spec_x_overlap(other) * self.spec_y_overlap(other)
        }
    }

    /// Return the vector to the top-left corner of the rectangle.
    pub fn top_left(&self) -> (r: Vec2<i64>)
        ensures
            r.x == self.x,
            r.y == self.y,
    {
        Vec2::new(self.left(), self.top())
    }

    /// Return the vector to the top-right corner of the rectangle.
    pub fn top_right(&self) -> (r: Vec2<i64>)
        requires
            i64::MIN <= self.spec_right() <= i64::MAX,
        ensures
            r.x == self.spec_right(),
            r.y == self.y,
    {
        Vec2::new(self.x + self.width, self.y)
    }

    /// Return the vector to the bottom-left corner of the rectangle.
    pub fn bottom_left(&self) -> (r: Vec2<i64>)
        requires
            i64::MIN <= self.spec_bottom() <= i64::MAX,
        ensures
            r.x == self.x,
            r.y == self.spec_bottom(),
    {
        Vec2::new(self.x, self.y + self.height)
    }

    /// Return the vector to the bottom-right corner of the rectangle.
    pub fn bottom_right(&self) -> (r: Vec2<i64>)
        requires
            i64::MIN <= self.spec_right() <= i64::MAX,
            i64::MIN <= self.spec_bottom() <= i64::MAX,
        ensures
            r.x == self.spec_right(),
            r.y == self.spec_bottom(),
    {
        Vec2::new(self.x + self.width, self.y + self.height)
    }

    /// Return the vector to the center of the rectangle, with each
    /// half-extent rounded down.
    pub fn center(&self) -> (r: Vec2<i64>)
        requires
            self.width >= 0,
            self.height >= 0,
            i64::MIN <= self.x + self.width / 2 <= i64::MAX,
            i64::MIN <= self.y + self.height / 2 <= i64::MAX,
        ensures
            r.x == self.x + self.width / 2,
            r.y == self.y + self.height / 2,
    {
        let half_w = ((self.width as u64) / 2) as i64;
        let half_h = ((self.height as u64) / 2) as i64;
        Vec2::new(self.x + half_w, self.y + half_h)
    }

    /// Return the x coordinate of the left side of the rectangle.
    pub fn left(&self) -> (r: i64)
        ensures
            r == self.x,
    {
        self.x
    }

    /// Return the x coordinate of the right side of the rectangle.
    pub fn right(&self) -> (r: i64)
        requires
            i64::MIN <= self.spec_right() <= i64::MAX,
        ensures
            r == self.spec_right(),
    {
        self.x + self.width
    }

    /// Return the y coordinate of the top of the rectangle.
    pub fn top(&self) -> (r: i64)
        ensures
            r == self.y,
    {
        self.y
    }

    /// Return the y coordinate of the bottom of the rectangle.
    pub fn bottom(&self) -> (r: i64)
        requires
            i64::MIN <= self.spec_bottom() <= i64::MAX,
        ensures
            r == self.spec_bottom(),
    {
        self.y + self.height
    }

    /// Moves the rectangle by a specified vector, leaving the extents
    /// unchanged.
    pub fn move_vec(&mut self, vec: Vec2<i64>)
        requires
            i64::MIN <= old(self).x + vec.x <= i64::MAX,
            i64::MIN <= old(self).y + vec.y <= i64::MAX,
        ensures
            final(self).x == old(self).x + vec.x,
            final(self).y == old(self).y + vec.y,
            final(self).width == old(self).width,
            final(self).height == old(self).height,
    {
        self.x = self.x + vec.x;
        self.y = self.y + vec.y;
    }

    /// Calculate the intersection area of two rectangles. Disjoint
    /// rectangles are a normal case and yield `0`.
    pub fn intersect_area(&self, other: &Rect) -> (r: i64)
        requires
            i64::MIN <= self.spec_right() <= i64::MAX,
            i64::MIN <= other.spec_right() <= i64::MAX,
            i64::MIN <= self.spec_bottom() <= i64::MAX,
            i64::MIN <= other.spec_bottom() <= i64::MAX,
            i64::MIN <= self.spec_x_overlap(*other) <= i64::MAX,
            i64::MIN <= self.spec_y_overlap(*other) <= i64::MAX,
            i64::MIN <= self.spec_intersect_area(*other) <= i64::MAX,
        ensures
            r == self.spec_intersect_area(*other),
    {
        let self_right = self.x + self.width;
        let other_right = other.x + other.width;
        let self_bottom = self.y + self.height;
        let other_bottom = other.y + other.height;
        let min_right = if self_right < other_right {
            self_right
        } else {
            other_right
        };
        let max_left = if self.x > other.x {
            self.x
        } else {
            other.x
        };
        let min_bottom = if self_bottom < other_bottom {
            self_bottom
        } else {
            other_bottom
        };
        let max_top = if self.y > other.y {
            self.y
        } else {
            other.y
        };
        let x_intersect = min_right - max_left;
        let y_intersect = min_bottom - max_top;
        if x_intersect < 0 || y_intersect < 0 {
            0
        } else {
            x_intersect * y_intersect
        }
    }

    /// The full-rectangle intersection: `None` when the rectangles do not
    /// meet, otherwise the rectangle of their common area, anchored at the
    /// larger of the two top-left corners.
    pub fn intersect(&self, other: &Rect) -> (r: Option<Rect>)
        requires
            i64::MIN <= self.spec_right() <= i64::MAX,
            i64::MIN <= other.spec_right() <= i64::MAX,
            i64::MIN <= self.spec_bottom() <= i64::MAX,
            i64::MIN <= other.spec_bottom() <= i64::MAX,
            i64::MIN <= self.spec_x_overlap(*other) <= i64::MAX,
            i64::MIN <= self.spec_y_overlap(*other) <= i64::MAX,
        ensures
            r is Some <==> !(self.spec_right() < other.x || self.x > other.spec_right()
                || self.spec_bottom() < other.y || self.y > other.spec_bottom()),
            r matches Some(rect) ==> {
                &&& rect.x == max_int(self.x as int, other.x as int)
                &&& rect.y == max_int(self.y as int, other.y as int)
                &&& rect.width == min_int(self.spec_right(), other.spec_right()) - rect.x
                &&& rect.height == min_int(self.spec_bottom(), other.spec_bottom()) - rect.y
            },
    {
        let self_right = self.x + self.width;
        let other_right = other.x + other.width;
        let self_bottom = self.y + self.height;
        let other_bottom = other.y + other.height;
        if self_right < other.x || self.x > other_right || self_bottom < other.y || self.y
            > other_bottom {
            return None;
        }
        let x = if self.x > other.x {
            self.x
        } else {
            other.x
        };
        let y = if self.y > other.y {
            self.y
        } else {
            other.y
        };
        let min_right = if self_right < other_right {
            self_right
        } else {
            other_right
        };
        let min_bottom = if self_bottom < other_bottom {
            self_bottom
        } else {
            other_bottom
        };
        Some(Rect { x, y, width: min_right - x, height: min_bottom - y })
    }
}

} // verus!
