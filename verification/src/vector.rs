use vstd::prelude::*;

verus! {

/// A 2-dimensional vector.
#[derive(PartialEq, Eq, Copy, Clone, Debug)]
pub struct Vec2<T> {
    pub x: T,
    pub y: T,
}

impl<T> Vec2<T> {
    /// Create a new vector from its two components.
    pub fn new(x: T, y: T) -> (r: Vec2<T>)
        ensures
            r.x == x,
            r.y == y,
    {
        Vec2 { x, y }
    }
}

impl Vec2<i64> {
    /// Create a new vector of length 0.
    pub fn zero() -> (r: Vec2<i64>)
        ensures
            r.x == 0 && r.y == 0,
    {
        Vec2 { x: 0, y: 0 }
    }

    /// Create the unit vector in the x direction.
    pub fn unit_x() -> (r: Vec2<i64>)
        ensures
            r.x == 1 && r.y == 0,
    {
        Vec2 { x: 1, y: 0 }
    }

    /// Create the unit vector in the y direction.
    pub fn unit_y() -> (r: Vec2<i64>)
        ensures
            r.x == 0 && r.y == 1,
    {
        Vec2 { x: 0, y: 1 }
    }

    /// Calculate the dot product between this and another vector.
    pub fn dot(&self, other: &Vec2<i64>) -> (r: i64)
        requires
            i64::MIN <= self.x * other.x <= i64::MAX,
            i64::MIN <= self.y * other.y <= i64::MAX,
            i64::MIN <= self.x * other.x + self.y * other.y <= i64::MAX,
        ensures
            r == self.x * other.x + self.y * other.y,
    {
        (self.x * other.x) + (self.y * other.y)
    }

    /// Calculates the length squared of the vector. Avoids taking a square root.
    pub fn length_sqr(&self) -> (r: i64)
        requires
            i64::MIN <= self.x * self.x <= i64::MAX,
            i64::MIN <= self.y * self.y <= i64::MAX,
            i64::MIN <= self.x * self.x + self.y * self.y <= i64::MAX,
        ensures
            r == self.x * self.x + self.y * self.y,
    {
        self.dot(self)
    }

    /// Creates a new vector equal to the vector scaled by a scalar value.
    pub fn scale(&self, scalar: i64) -> (r: Vec2<i64>)
        requires
            i64::MIN <= self.x * scalar <= i64::MAX,
            i64::MIN <= self.y * scalar <= i64::MAX,
        ensures
            r.x == self.x * scalar,
            r.y == self.y * scalar,
    {
        Vec2::new(self.x * scalar, self.y * scalar)
    }

    /// Adds two vectors together, componentwise.
    pub fn add(self, rhs: Vec2<i64>) -> (r: Vec2<i64>)
        requires
            i64::MIN <= self.x + rhs.x <= i64::MAX,
            i64::MIN <= self.y + rhs.y <= i64::MAX,
        ensures
            r.x == self.x + rhs.x,
            r.y == self.y + rhs.y,
    {
        Vec2::new(self.x + rhs.x, self.y + rhs.y)
    }

    /// Subtracts one vector from another, componentwise.
    pub fn sub(self, rhs: Vec2<i64>) -> (r: Vec2<i64>)
        requires
            i64::MIN <= self.x - rhs.x <= i64::MAX,
            i64::MIN <= self.y - rhs.y <= i64::MAX,
        ensures
            r.x == self.x - rhs.x,
            r.y == self.y - rhs.y,
    {
        Vec2::new(self.x - rhs.x, self.y - rhs.y)
    }
}

} // verus!
