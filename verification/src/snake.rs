//! The snake: the cells it covers, head first, and the way it is heading.

use vstd::prelude::*;
use crate::point::Point;

verus! {

/// One of the four ways the snake can head.
#[derive(PartialEq, Eq, Structural, Clone, Copy, Debug)]
pub enum Direction {
    Right,
    Down,
    Left,
    Up,
}

impl Direction {
    /// The direction that points the other way.
    pub open spec fn opposite(self) -> Direction {
        match self {
            Direction::Right => Direction::Left,
            Direction::Down => Direction::Up,
            Direction::Left => Direction::Right,
            Direction::Up => Direction::Down,
        }
    }
}

/// The heading of a snake that heads `current` and is asked to turn to
/// `wanted`: a snake cannot turn back on itself, every other turn is taken.
pub open spec fn turned(current: Direction, wanted: Direction) -> Direction {
    if wanted == current.opposite() {
        current
    } else {
        wanted
    }
}

/// The cells of the snake at the start of a game, head first: three cells in
/// column 2, the head at row 5.
pub open spec fn starting_body() -> Seq<Point> {
    seq![Point { x: 2, y: 5 }, Point { x: 2, y: 4 }, Point { x: 2, y: 3 }]
}

/// The snake. `body[0]` is the head; the tail is the last element.
pub struct Snake {
    pub body: Vec<Point>,
    pub dir: Direction,
}

impl Snake {
    /// A snake with the cells `body`, head first, heading `dir`.
    pub fn new(body: Vec<Point>, dir: Direction) -> (snake: Self)
        ensures
            snake.body == body,
            snake.dir == dir,
    {
        Self { body, dir }
    }

    /// Whether one of the snake's cells from index `from` up to, not
    /// including, index `to` is `p`.
    pub fn covers_between(&self, from: usize, to: usize, p: Point) -> (found: bool)
        requires
            from <= to <= self.body@.len(),
        ensures
            found == self.body@.subrange(from as int, to as int).contains(p),
    {
        let ghost part = self.body@.subrange(from as int, to as int);
        for i in from..to
            invariant
                from <= to <= self.body@.len(),
                part == self.body@.subrange(from as int, to as int),
                forall|k: int| 0 <= k < i - from ==> part[k] != p,
        {
            if self.body[i] == p {
                assert(part[i - from] == p);
                return true;
            }
        }
        false
    }

    /// Whether one of the snake's cells is `p`.
    pub fn covers(&self, p: Point) -> (found: bool)
        ensures
            found == self.body@.contains(p),
    {
        assert(self.body@.subrange(0, self.body@.len() as int) =~= self.body@);
        self.covers_between(0, self.body.len(), p)
    }

    /// Turns the snake towards `dir`, unless that would reverse it.
    pub fn move_to(&mut self, dir: Direction)
        ensures
            final(self).dir == turned(old(self).dir, dir),
            final(self).body == old(self).body,
    {
        self.dir = match dir {
            Direction::Right if self.dir != Direction::Left => Direction::Right,
            Direction::Down if self.dir != Direction::Up => Direction::Down,
            Direction::Left if self.dir != Direction::Right => Direction::Left,
            Direction::Up if self.dir != Direction::Down => Direction::Up,
            _ => self.dir,
        };
    }
}

impl Default for Snake {
    /// The snake at the start of a game, heading down.
    fn default() -> (snake: Self)
        ensures
            snake.body@ == starting_body(),
            snake.dir == Direction::Down,
    {
        Self {
            body: vec![Point::new(2, 5), Point::new(2, 4), Point::new(2, 3)],
            dir: Direction::Down,
        }
    }
}

/// Asking a snake to turn never reverses it, and asking for the heading it
/// already has changes nothing.
pub proof fn turn_never_reverses(current: Direction, wanted: Direction)
    ensures
        turned(current, wanted) != current.opposite(),
        turned(current, current) == current,
        turned(current, wanted) == current || turned(current, wanted) == wanted,
{
}

} // verus!
