use crate::vector::Vec2;
use vstd::prelude::*;

verus! {

/// A plain two-component vector used as the common exchange form of the
/// basic vector operations.
pub struct RawVector2<T> {
    pub x: T,
    pub y: T,
}

impl<T> RawVector2<T> {
    /// Create a new vector from its two components.
    pub fn new(x: T, y: T) -> (r: RawVector2<T>)
        ensures
            r.x == x,
            r.y == y,
    {
        RawVector2 { x, y }
    }
}

impl RawVector2<i64> {
    /// Create a new vector of length 0.
    pub fn zero() -> (r: RawVector2<i64>)
        ensures
            r.x == 0 && r.y == 0,
    {
        RawVector2::new(0, 0)
    }

    /// Create the unit vector in the x direction.
    pub fn unit_x() -> (r: RawVector2<i64>)
        ensures
            r.x == 1 && r.y == 0,
    {
        RawVector2::new(1, 0)
    }

    /// Create the unit vector in the y direction.
    pub fn unit_y() -> (r: RawVector2<i64>)
        ensures
            r.x == 0 && r.y == 1,
    {
        RawVector2::new(0, 1)
    }

    /// Calculate the dot product between this and another vector.
    pub fn dot(&self, other: &RawVector2<i64>) -> (r: i64)
        requires
            i64::MIN <= self.x * other.x <= i64::MAX,
            i64::MIN <= self.y * other.y <= i64::MAX,
            i64::MIN <= self.x * other.x + self.y * other.y <= i64::MAX,
        ensures
            r == self.x * other.x + self.y * other.y,
    {
        (self.x * other.x) + (self.y * other.y)
    }

    /// Adds two vectors together, componentwise.
    pub fn add(&self, rhs: &RawVector2<i64>) -> (r: RawVector2<i64>)
        requires
            i64::MIN <= self.x + rhs.x <= i64::MAX,
            i64::MIN <= self.y + rhs.y <= i64::MAX,
        ensures
            r.x == self.x + rhs.x,
            r.y == self.y + rhs.y,
    {
        RawVector2::new(self.x + rhs.x, self.y + rhs.y)
    }

    /// Subtracts one vector from another, componentwise.
    pub fn sub(&self, rhs: &RawVector2<i64>) -> (r: RawVector2<i64>)
        requires
            i64::MIN <= self.x - rhs.x <= i64::MAX,
            i64::MIN <= self.y - rhs.y <= i64::MAX,
        ensures
            r.x == self.x - rhs.x,
            r.y == self.y - rhs.y,
    {
        RawVector2::new(self.x - rhs.x, self.y - rhs.y)
    }

    /// Calculates the length squared of the vector. Avoids taking a square
    /// root.
    pub fn length_sqr(&self) -> (r: i64)
        requires
            i64::MIN <= self.x * self.x <= i64::MAX,
            i64::MIN <= self.y * self.y <= i64::MAX,
            i64::MIN <= self.x * self.x + self.y * self.y <= i64::MAX,
        ensures
            r == self.x * self.x + self.y * self.y,
    {
        self.dot(self)
    }

    /// Creates a new vector equal to the vector scaled by a constant.
    pub fn scale(&self, scalar: i64) -> (r: RawVector2<i64>)
        requires
            i64::MIN <= self.x * scalar <= i64::MAX,
            i64::MIN <= self.y * scalar <= i64::MAX,
        ensures
            r.x == self.x * scalar,
            r.y == self.y * scalar,
    {
        RawVector2::new(self.x * scalar, self.y * scalar)
    }
}

/// The basic vector operations, for any representation that can exchange
/// its components with a `RawVector2`.
pub trait BasicVector2: Sized {
    /// Mathematical x component of the vector.
    spec fn vx(&self) -> int;

    /// Mathematical y component of the vector.
    spec fn vy(&self) -> int;

    /// View the vector in the common exchange form.
    fn as_raw(&self) -> (r: RawVector2<i64>)
        ensures
            r.x == self.vx(),
            r.y == self.vy(),
    ;

    /// Build the vector back from the common exchange form.
    fn from_raw(raw: RawVector2<i64>) -> (r: Self)
        ensures
            r.vx() == raw.x,
            r.vy() == raw.y,
    ;

    /// Create a new vector of length 0.
    fn zero() -> (r: Self)
        ensures
            r.vx() == 0 && r.vy() == 0,
    ;

    /// Create the unit vector in the x direction.
    fn unit_x() -> (r: Self)
        ensures
            r.vx() == 1 && r.vy() == 0,
    ;

    /// Create the unit vector in the y direction.
    fn unit_y() -> (r: Self)
        ensures
            r.vx() == 0 && r.vy() == 1,
    ;

    /// Calculate the dot product between this and another vector.
    fn dot(&self, other: &Self) -> (r: i64)
        requires
            i64::MIN <= self.vx() * other.vx() <= i64::MAX,
            i64::MIN <= self.vy() * other.vy() <= i64::MAX,
            i64::MIN <= self.vx() * other.vx() + self.vy() * other.vy() <= i64::MAX,
        ensures
            r == self.vx() * other.vx() + self.vy() * other.vy(),
    ;
}

impl BasicVector2 for Vec2<i64> {
    open spec fn vx(&self) -> int {
        self.x as int
    }

    open spec fn vy(&self) -> int {
        self.y as int
    }

    fn as_raw(&self) -> (r: RawVector2<i64>) {
        RawVector2::new(self.x, self.y)
    }

    fn from_raw(raw: RawVector2<i64>) -> (r: Vec2<i64>) {
        Vec2::new(raw.x, raw.y)
    }

    fn zero() -> (r: Vec2<i64>) {
        Self::from_raw(RawVector2::zero())
    }

    fn unit_x() -> (r: Vec2<i64>) {
        Self::from_raw(RawVector2::unit_x())
    }

    fn unit_y() -> (r: Vec2<i64>) {
        Self::from_raw(RawVector2::unit_y())
    }

    fn dot(&self, other: &Vec2<i64>) -> (r: i64) {
        let a = self.as_raw();
        let b = other.as_raw();
        a.dot(&b)
    }
}

} // verus!
