//! Integer 2D vectors used as grid coordinates.

use vstd::prelude::*;

verus! {

/// A 2D integer vector; doubles as a grid coordinate and as a direction.
#[derive(Hash, Eq, Clone, Copy, Debug, PartialEq, Structural)]
pub struct Vec2 {
    pub x: i32,
    pub y: i32,
}

impl Vec2 {
    pub fn new(x: i32, y: i32) -> (v: Self)
        ensures
            v == (Vec2 { x, y }),
    {
        Self { x, y }
    }

    /// The origin; also the direction of "no movement".
    pub fn zero() -> (v: Self)
        ensures
            v == (Vec2 { x: 0i32, y: 0i32 }),
    {
        Self { x: 0, y: 0 }
    }

    /// One step towards the top row.
    pub fn up() -> (v: Self)
        ensures
            v == (Vec2 { x: 0i32, y: -1i32 }),
    {
        Self { x: 0, y: -1 }
    }

    /// One step towards the bottom row.
    pub fn down() -> (v: Self)
        ensures
            v == (Vec2 { x: 0i32, y: 1i32 }),
    {
        Self { x: 0, y: 1 }
    }

    /// One step towards the leftmost column.
    pub fn left() -> (v: Self)
        ensures
            v == (Vec2 { x: -1i32, y: 0i32 }),
    {
        Self { x: -1, y: 0 }
    }

    /// One step towards the rightmost column.
    pub fn right() -> (v: Self)
        ensures
            v == (Vec2 { x: 1i32, y: 0i32 }),
    {
        Self { x: 1, y: 0 }
    }

    /// The coordinate of the cell with row-major index `idx` in a grid
    /// `width` cells wide.
    pub fn from_index(idx: usize, width: usize) -> (v: Self)
        requires
            width > 0,
            idx % width <= i32::MAX,
            idx / width <= i32::MAX,
        ensures
            v.x == idx % width,
            v.y == idx / width,
    {
        let x = (idx % width) as i32;
        let y = (idx / width) as i32;
        Self { x, y }
    }

    /// The row-major index of this coordinate in a grid `width` cells wide.
    pub fn to_index(&self, width: usize) -> (idx: usize)
        requires
            self.x >= 0,
            self.y >= 0,
            self.y * width + self.x <= usize::MAX,
        ensures
            idx == self.y * width + self.x,
    {
        self.y as usize * width + self.x as usize
    }

    /// Component-wise sum.
    pub fn add(self, rhs: Vec2) -> (v: Self)
        requires
            i32::MIN <= self.x + rhs.x <= i32::MAX,
            i32::MIN <= self.y + rhs.y <= i32::MAX,
        ensures
            v.x == self.x + rhs.x,
            v.y == self.y + rhs.y,
    {
        Self { x: self.x + rhs.x, y: self.y + rhs.y }
    }

    /// Component-wise difference.
    pub fn sub(self, rhs: Vec2) -> (v: Self)
        requires
            i32::MIN <= self.x - rhs.x <= i32::MAX,
            i32::MIN <= self.y - rhs.y <= i32::MAX,
        ensures
            v.x == self.x - rhs.x,
            v.y == self.y - rhs.y,
    {
        Self { x: self.x - rhs.x, y: self.y - rhs.y }
    }
}

} // verus!
