//! A cell position on the board.

use vstd::prelude::*;

verus! {

/// A position on the board: column `x`, row `y`, counted from the top left.
#[derive(PartialEq, Eq, Structural, Clone, Copy, Debug)]
pub struct Point {
    pub x: usize,
    pub y: usize,
}

impl Point {
    /// The cell in column `x`, row `y`.
    pub fn new(x: usize, y: usize) -> (p: Self)
        ensures
            p == (Point { x, y }),
    {
        Self { x, y }
    }

    /// Moves the point to column `x`, row `y`.
    pub fn set(&mut self, x: usize, y: usize)
        ensures
            *final(self) == (Point { x, y }),
    {
        self.x = x;
        self.y = y;
    }

    /// Shifts the point right by `x` and down by `y`.
    pub fn add(&mut self, x: usize, y: usize)
        requires
            old(self).x + x <= usize::MAX,
            old(self).y + y <= usize::MAX,
        ensures
            final(self).x == old(self).x + x,
            final(self).y == old(self).y + y,
    {
        self.x += x;
        self.y += y;
    }

    /// Shifts the point left by `x` and up by `y`.
    pub fn sub(&mut self, x: usize, y: usize)
        requires
            x <= old(self).x,
            y <= old(self).y,
        ensures
            final(self).x == old(self).x - x,
            final(self).y == old(self).y - y,
    {
        self.x -= x;
        self.y -= y;
    }
}

impl Default for Point {
    /// The cell where the snake's head starts.
    fn default() -> (p: Self)
        ensures
            p == (Point { x: 2, y: 5 }),
    {
        Self { x: 2, y: 5 }
    }
}

} // verus!
