use std::ops::{Add, Mul, Sub};
use vstd::prelude::*;
use vstd::std_specs::ops::{AddSpecImpl, MulSpecImpl, SubSpecImpl};

verus! {

/// A position or size on screen, in whole pixels.
#[derive(Clone, Copy, Debug, PartialEq, Eq)]
pub struct Vector2<T> {
    pub x: T,
    pub y: T,
}

impl<T: Copy> Vector2<T> {
    /// The vector `(x, y)`.
    pub fn new(x: T, y: T) -> (r: Self)
        ensures
            r.x == x,
            r.y == y,
    {
        Vector2 { x, y }
    }
}

impl Add for Vector2<u8> {
    type Output = Vector2<u8>;

    fn add(self, rhs: Self) -> (r: Self::Output) {
        Vector2 { x: self.x + rhs.x, y: self.y + rhs.y }
    }
}

impl AddSpecImpl for Vector2<u8> {
    open spec fn obeys_add_spec() -> bool {
        true
    }

    open spec fn add_req(self, rhs: Self) -> bool {
        self.x + rhs.x <= u8::MAX && self.y + rhs.y <= u8::MAX
    }

    open spec fn add_spec(self, rhs: Self) -> Self {
        Vector2 { x: (self.x + rhs.x) as u8, y: (self.y + rhs.y) as u8 }
    }
}

impl Sub for Vector2<u8> {
    type Output = Vector2<u8>;

    fn sub(self, rhs: Self) -> (r: Self::Output) {
        Vector2 { x: self.x - rhs.x, y: self.y - rhs.y }
    }
}

impl SubSpecImpl for Vector2<u8> {
    open spec fn obeys_sub_spec() -> bool {
        true
    }

    open spec fn sub_req(self, rhs: Self) -> bool {
        self.x >= rhs.x && self.y >= rhs.y
    }

    open spec fn sub_spec(self, rhs: Self) -> Self {
        Vector2 { x: (self.x - rhs.x) as u8, y: (self.y - rhs.y) as u8 }
    }
}

/// Both components scaled by `rhs`.
impl Mul<u8> for Vector2<u8> {
    type Output = Vector2<u8>;

    fn mul(self, rhs: u8) -> (r: Self::Output) {
        Vector2 { x: self.x * rhs, y: self.y * rhs }
    }
}

impl MulSpecImpl<u8> for Vector2<u8> {
    open spec fn obeys_mul_spec() -> bool {
        true
    }

    open spec fn mul_req(self, rhs: u8) -> bool {
        self.x * rhs <= u8::MAX && self.y * rhs <= u8::MAX
    }

    open spec fn mul_spec(self, rhs: u8) -> Self {
        Vector2 { x: (self.x * rhs) as u8, y: (self.y * rhs) as u8 }
    }
}

} // verus!
