//! The board: a grid of cell codes, row by row.

use vstd::prelude::*;
use crate::snake::{starting_body, Direction, Snake};

verus! {

/// Number of columns of the built-in level.
pub const COLS: usize = 10;

/// Number of rows of the built-in level.
pub const ROWS: usize = 15;

/// What a cell of the board shows.
#[derive(PartialEq, Eq, Structural, Clone, Copy, Debug)]
pub enum Shape {
    Empty,
    Wall,
    Body,
    Head,
    Food,
}

impl Shape {
    /// The code that stands for this shape in a grid.
    pub open spec fn spec_code(self) -> i8 {
        match self {
            Shape::Empty => 0i8,
            Shape::Wall => -1i8,
            Shape::Body => 1i8,
            Shape::Head => 2i8,
            Shape::Food => 3i8,
        }
    }

    /// The character that draws this shape.
    pub open spec fn spec_glyph(self) -> char {
        match self {
            Shape::Empty => '_',
            Shape::Wall => '$',
            Shape::Body => '#',
            Shape::Head => '@',
            Shape::Food => '%',
        }
    }

    /// The code that stands for this shape in a grid.
    #[verifier::when_used_as_spec(spec_code)]
    pub fn code(self) -> (c: i8)
        ensures
            c == self.spec_code(),
    {
        match self {
            Shape::Empty => 0,
            Shape::Wall => -1,
            Shape::Body => 1,
            Shape::Head => 2,
            Shape::Food => 3,
        }
    }

    /// The character that draws this shape.
    #[verifier::when_used_as_spec(spec_glyph)]
    pub fn glyph(self) -> (c: char)
        ensures
            c == self.spec_glyph(),
    {
        match self {
            Shape::Empty => '_',
            Shape::Wall => '$',
            Shape::Body => '#',
            Shape::Head => '@',
            Shape::Food => '%',
        }
    }

    /// The shape that `code` stands for, if it stands for one.
    pub fn from_code(code: i8) -> (shape: Option<Shape>)
        ensures
            shape == shape_of(code),
    {
        if code == 0 {
            Some(Shape::Empty)
        } else if code == -1 {
            Some(Shape::Wall)
        } else if code == 1 {
            Some(Shape::Body)
        } else if code == 2 {
            Some(Shape::Head)
        } else if code == 3 {
            Some(Shape::Food)
        } else {
            None
        }
    }
}

/// The shape whose code is `code`; `None` for a number that is no code.
pub open spec fn shape_of(code: i8) -> Option<Shape> {
    if code == 0 {
        Some(Shape::Empty)
    } else if code == -1 {
        Some(Shape::Wall)
    } else if code == 1 {
        Some(Shape::Body)
    } else if code == 2 {
        Some(Shape::Head)
    } else if code == 3 {
        Some(Shape::Food)
    } else {
        None
    }
}

/// Whether column `x`, row `y` is a cell of `grid`.
pub open spec fn in_grid(grid: Seq<Seq<i8>>, x: int, y: int) -> bool {
    0 <= y < grid.len() && 0 <= x < grid[y].len()
}

/// The grid of a level holds, row by row, the cells of its vectors.
pub proof fn lemma_grid_rows(level: &Vec<Vec<i8>>)
    ensures
        level.deep_view().len() == level@.len(),
        forall|y: int| 0 <= y < level@.len() ==> #[trigger] level.deep_view()[y] == level@[y]@,
{
}

/// The built-in level as a grid: `ROWS` rows of `COLS` cells, walls all
/// around and empty cells inside.
pub open spec fn walled_grid() -> Seq<Seq<i8>> {
    Seq::new(
        ROWS as nat,
        |y: int|
            Seq::new(
                COLS as nat,
                |x: int|
                    if x == 0 || x == COLS - 1 || y == 0 || y == ROWS - 1 {
                        Shape::Wall.spec_code()
                    } else {
                        Shape::Empty.spec_code()
                    },
            ),
    )
}

/// A row of `width` empty cells.
fn empty_row(width: usize) -> (row: Vec<i8>)
    ensures
        row@ == Seq::new(width as nat, |x: int| Shape::Empty.spec_code()),
{
    let mut row: Vec<i8> = Vec::new();
    let mut x: usize = 0;
    while x < width
        invariant
            x <= width,
            row@ == Seq::new(x as nat, |x: int| Shape::Empty.spec_code()),
        decreases width - x,
    {
        row.push(Shape::Empty.code());
        x += 1;
    }
    row
}

/// The level and the snake that a game starts with.
pub fn load_level() -> (start: (Vec<Vec<i8>>, Snake))
    ensures
        start.0.deep_view() == walled_grid(),
        start.1.body@ == starting_body(),
        start.1.dir == Direction::Down,
{
    let width = COLS;
    let height = ROWS;

    let snake = Snake::default();

    let mut level: Vec<Vec<i8>> = Vec::new();
    let mut row: usize = 0;
    while row < height
        invariant
            row <= height,
            level@.len() == row,
            forall|y: int|
                0 <= y < row ==> (#[trigger] level@[y])@ == Seq::new(
                    width as nat,
                    |x: int| Shape::Empty.spec_code(),
                ),
        decreases height - row,
    {
        level.push(empty_row(width));
        row += 1;
    }

    for row in 0..height
        invariant
            width == COLS,
            height == ROWS,
            level@.len() == height,
            forall|y: int| 0 <= y < height ==> (#[trigger] level@[y])@.len() == width,
            forall|y: int, x: int|
                0 <= y < height && 0 <= x < width ==> (#[trigger] level@[y]@[x]) == (if y < row
                    && (x == 0 || x == width - 1) {
                    Shape::Wall.spec_code()
                } else {
                    Shape::Empty.spec_code()
                }),
    {
        level[row][0] = Shape::Wall.code();
        level[row][width - 1] = Shape::Wall.code();
    }
    for column in 1..(width - 1)
        invariant
            width == COLS,
            height == ROWS,
            level@.len() == height,
            forall|y: int| 0 <= y < height ==> (#[trigger] level@[y])@.len() == width,
            forall|y: int, x: int|
                0 <= y < height && 0 <= x < width ==> (#[trigger] level@[y]@[x]) == (if x == 0 || x
                    == width - 1 || ((y == 0 || y == height - 1) && x < column) {
                    Shape::Wall.spec_code()
                } else {
                    Shape::Empty.spec_code()
                }),
    {
        level[0][column] = Shape::Wall.code();
        level[height - 1][column] = Shape::Wall.code();
    }

    assert(level.deep_view() =~~= walled_grid());
    (level, snake)
}

} // verus!
