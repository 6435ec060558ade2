//! Two-component fixed-point vectors.

use vstd::prelude::*;
use crate::fixed::{mul_fixed, mul_spec};

verus! {

/// A point or a displacement in the plane, in fixed-point coordinates.
#[derive(Clone, Copy, Debug, PartialEq, Eq, Structural)]
pub struct Vector2 {
    pub x: i64,
    pub y: i64,
}

impl Vector2 {
    /// The sum of two vectors, component by component.
    pub open spec fn add_spec(self, other: Vector2) -> (int, int) {
        (self.x + other.x, self.y + other.y)
    }

    /// The vector scaled by the fixed-point factor `k`, component by
    /// component.
    pub open spec fn scale_spec(self, k: int) -> (int, int) {
        (mul_spec(self.x as int, k), mul_spec(self.y as int, k))
    }

    /// The square of the vector's length, in squared raw units.
    pub open spec fn norm_squared(self) -> int {
        self.x * self.x + self.y * self.y
    }

    /// The vector with the given components.
    pub fn new(x: i64, y: i64) -> (v: Vector2)
        ensures
            v.x == x,
            v.y == y,
    {
        Vector2 { x, y }
    }

    /// The zero vector.
    pub fn zero() -> (v: Vector2)
        ensures
            v.x == 0,
            v.y == 0,
    {
        Vector2 { x: 0, y: 0 }
    }

    /// Adds two vectors.
    pub fn add(self, other: Vector2) -> (v: Vector2)
        requires
            i64::MIN <= self.x + other.x <= i64::MAX,
            i64::MIN <= self.y + other.y <= i64::MAX,
        ensures
            (v.x as int, v.y as int) == self.add_spec(other),
    {
        Vector2 { x: self.x + other.x, y: self.y + other.y }
    }

    /// Scales a vector by a fixed-point factor.
    pub fn scale(self, k: i64) -> (v: Vector2)
        requires
            i64::MIN <= mul_spec(self.x as int, k as int) <= i64::MAX,
            i64::MIN <= mul_spec(self.y as int, k as int) <= i64::MAX,
        ensures
            (v.x as int, v.y as int) == self.scale_spec(k as int),
    {
        Vector2 { x: mul_fixed(self.x, k), y: mul_fixed(self.y, k) }
    }
}

} // verus!
