//! Drawing the board as text.

use vstd::prelude::*;
use crate::level::{in_grid, lemma_grid_rows, shape_of, Shape};
use crate::point::Point;
use crate::snake::Snake;

verus! {

/// `String::push` of the standard library appends one character to the end
/// of the string and leaves the rest as it was.
pub assume_specification[ String::push ](s: &mut String, ch: char)
    ensures
        final(s)@ == old(s)@.push(ch),
;

/// The code drawn at `p` once the snake and the food are laid over `level`:
/// the food wins over the snake, the snake over the level; of the snake's
/// cells, the one where its head is shows the head.
pub open spec fn drawn_code(
    level: Seq<Seq<i8>>,
    body: Seq<Point>,
    food: Option<Point>,
    p: Point,
) -> i8 {
    if food == Some(p) {
        Shape::Food.spec_code()
    } else if body.contains(p) {
        if p == body[0] {
            Shape::Head.spec_code()
        } else {
            Shape::Body.spec_code()
        }
    } else {
        level[p.y as int][p.x as int]
    }
}

/// The grid that is drawn: `level` with the snake and the food laid over it.
pub open spec fn drawn_grid(level: Seq<Seq<i8>>, body: Seq<Point>, food: Option<Point>) -> Seq<
    Seq<i8>,
> {
    Seq::new(
        level.len(),
        |y: int|
            Seq::new(
                level[y].len(),
                |x: int| drawn_code(level, body, food, Point { x: x as usize, y: y as usize }),
            ),
    )
}

/// Whether every cell of `grid` holds the code of a shape.
pub open spec fn all_codes(grid: Seq<Seq<i8>>) -> bool {
    forall|y: int, x: int| in_grid(grid, x, y) ==> shape_of(#[trigger] grid[y][x]) is Some
}

/// The first `n` cells of `row` as text: a space and the cell's character
/// for each.
pub open spec fn cells_text(row: Seq<i8>, n: int) -> Seq<char> {
    Seq::new(
        (2 * n) as nat,
        |i: int|
            if i % 2 == 0 {
                ' '
            } else {
                shape_of(row[i / 2])->0.spec_glyph()
            },
    )
}

/// One row as text: its cells, then a line feed.
pub open spec fn row_text(row: Seq<i8>) -> Seq<char> {
    cells_text(row, row.len() as int).push('\n')
}

/// A grid as text: its rows, one after the other.
pub open spec fn grid_text(grid: Seq<Seq<i8>>) -> Seq<char> {
    grid.map_values(|row: Seq<i8>| row_text(row)).flatten()
}

/// Whether every cell of the snake and the food, if there is any, lie on the
/// grid.
pub open spec fn fits(level: Seq<Seq<i8>>, body: Seq<Point>, food: Option<Point>) -> bool {
    &&& forall|i: int| 0 <= i < body.len() ==> in_grid(level, (#[trigger] body[i]).x as int, body[i].y as int)
    &&& food matches Some(p) ==> in_grid(level, p.x as int, p.y as int)
}

/// What one more cell of the snake adds to the cells that the first `i`
/// cover.
proof fn lemma_take_contains(body: Seq<Point>, i: int, p: Point)
    requires
        0 <= i < body.len(),
    ensures
        body.take(i + 1).contains(p) <==> body.take(i).contains(p) || p == body[i],
        body.take(i + 1)[0] == body[0],
        body.take(i).contains(p) ==> body.take(i)[0] == body[0],
{
    let shorter = body.take(i);
    let longer = body.take(i + 1);
    if longer.contains(p) {
        let k = choose|k: int| 0 <= k < longer.len() && longer[k] == p;
        if k < i {
        }
    }
    if shorter.contains(p) {
        let k = choose|k: int| 0 <= k < shorter.len() && shorter[k] == p;
    }
    assert(longer[i] == body[i]);
}

/// The grid to draw: a copy of `level` with the snake and the food on it.
pub fn back_buffer(level: &Vec<Vec<i8>>, snake: &Snake, food: &Option<Point>) -> (buffer: Vec<
    Vec<i8>,
>)
    requires
        fits(level.deep_view(), snake.body@, *food),
    ensures
        buffer.deep_view() == drawn_grid(level.deep_view(), snake.body@, *food),
{
    let mut buffer = level.clone();
    proof {
        lemma_grid_rows(level);
        lemma_grid_rows(&buffer);
    }

    let n = snake.body.len();
    for i in 0..n
        invariant
            n == snake.body@.len(),
            fits(level.deep_view(), snake.body@, *food),
            level.deep_view().len() == level@.len(),
            forall|y: int| 0 <= y < level@.len() ==> #[trigger] level.deep_view()[y] == level@[y]@,
            buffer@.len() == level@.len(),
            forall|y: int| 0 <= y < level@.len() ==> (#[trigger] buffer@[y])@.len() == level@[y]@.len(),
            forall|y: int, x: int|
                0 <= y < level@.len() && 0 <= x < level@[y]@.len() ==> (#[trigger] buffer@[y]@[x])
                    == drawn_code(
                    level.deep_view(),
                    snake.body@.take(i as int),
                    None,
                    Point { x: x as usize, y: y as usize },
                ),
    {
        let point = snake.body[i];
        let code = if snake.body[0] == point {
            Shape::Head.code()
        } else {
            Shape::Body.code()
        };
        buffer[point.y][point.x] = code;
        proof {
            assert forall|y: int, x: int|
                0 <= y < level@.len() && 0 <= x < level@[y]@.len() implies (#[trigger] buffer@[y]@[x])
                == drawn_code(
                level.deep_view(),
                snake.body@.take(i + 1),
                None,
                Point { x: x as usize, y: y as usize },
            ) by {
                assert(level@.len() == level.len() && level@[y]@.len() == level@[y].len());
                lemma_take_contains(snake.body@, i as int, Point { x: x as usize, y: y as usize });
            }
        }
    }
    assert(snake.body@.take(n as int) =~= snake.body@);

    let ghost before = buffer@;
    if let Some(point) = food {
        buffer[point.y][point.x] = Shape::Food.code();
    }
    proof {
        lemma_grid_rows(&buffer);
        let drawn = drawn_grid(level.deep_view(), snake.body@, *food);
        assert forall|y: int| 0 <= y < drawn.len() implies #[trigger] buffer.deep_view()[y]
            =~= drawn[y] by {
            assert(buffer@[y]@.len() == level@[y]@.len());
            assert forall|x: int| 0 <= x < drawn[y].len() implies buffer@[y]@[x] == drawn[y][x] by {
                assert(before[y]@[x] == drawn_code(
                    level.deep_view(),
                    snake.body@,
                    None,
                    Point { x: x as usize, y: y as usize },
                ));
            }
        }
    }
    buffer
}

/// A grid with one more row is drawn as the grid, then that row.
proof fn lemma_grid_text_step(grid: Seq<Seq<i8>>, y: int)
    requires
        0 <= y < grid.len(),
    ensures
        grid_text(grid.take(y + 1)) == grid_text(grid.take(y)) + row_text(grid[y]),
{
    let f = |row: Seq<i8>| row_text(row);
    assert(grid.take(y + 1).map_values(f) =~= grid.take(y).map_values(f).push(row_text(grid[y])));
    grid.take(y).map_values(f).lemma_flatten_push(row_text(grid[y]));
}

/// Draws a grid of codes as text.
pub fn draw(buffer: &Vec<Vec<i8>>) -> (text: String)
    requires
        all_codes(buffer.deep_view()),
    ensures
        text@ == grid_text(buffer.deep_view()),
{
    let mut text = String::new();
    let ghost grid = buffer.deep_view();
    proof {
        lemma_grid_rows(buffer);
    }
    let rows = buffer.len();
    for y in 0..rows
        invariant
            rows == buffer@.len(),
            grid == buffer.deep_view(),
            all_codes(grid),
            grid.len() == buffer@.len(),
            forall|y: int| 0 <= y < buffer@.len() ==> #[trigger] grid[y] == buffer@[y]@,
            text@ == grid_text(grid.take(y as int)),
    {
        let row = &buffer[y];
        let width = row.len();
        for x in 0..width
            invariant
                width == row@.len(),
                0 <= y < grid.len(),
                row@ == grid[y as int],
                all_codes(grid),
                text@ == grid_text(grid.take(y as int)) + cells_text(row@, x as int),
        {
            let code = row[x];
            let c = match Shape::from_code(code) {
                Some(shape) => shape.glyph(),
                None => vstd::pervasive::unreached(),
            };
            text.push(' ');
            text.push(c);
        }
        text.push('\n');
        proof {
            lemma_grid_text_step(grid, y as int);
        }
    }
    assert(grid.take(rows as int) =~= grid);
    text
}

/// Whether `p` is a cell of `level`.
fn on_level(level: &Vec<Vec<i8>>, p: Point) -> (on: bool)
    ensures
        on == in_grid(level.deep_view(), p.x as int, p.y as int),
{
    proof {
        lemma_grid_rows(level);
    }
    p.y < level.len() && p.x < level[p.y].len()
}

/// Whether every cell of `buffer` holds the code of a shape.
fn only_codes(buffer: &Vec<Vec<i8>>) -> (ok: bool)
    ensures
        ok == all_codes(buffer.deep_view()),
{
    let ghost grid = buffer.deep_view();
    proof {
        lemma_grid_rows(buffer);
    }
    for y in 0..buffer.len()
        invariant
            grid == buffer.deep_view(),
            grid.len() == buffer@.len(),
            forall|y: int| 0 <= y < buffer@.len() ==> #[trigger] grid[y] == buffer@[y]@,
            forall|j: int, i: int|
                0 <= j < y && 0 <= i < grid[j].len() ==> shape_of(#[trigger] grid[j][i]) is Some,
    {
        let row = &buffer[y];
        for x in 0..row.len()
            invariant
                grid == buffer.deep_view(),
                0 <= y < grid.len(),
                row@ == grid[y as int],
                forall|i: int| 0 <= i < x ==> shape_of(#[trigger] row@[i]) is Some,
        {
            if Shape::from_code(row[x]).is_none() {
                return false;
            }
        }
    }
    true
}

/// Whether the board can be drawn, so that `render` may be called.
pub fn can_render(level: &Vec<Vec<i8>>, snake: &Snake, food: &Option<Point>) -> (ok: bool)
    ensures
        ok == (fits(level.deep_view(), snake.body@, *food) && all_codes(
            drawn_grid(level.deep_view(), snake.body@, *food),
        )),
{
    for i in 0..snake.body.len()
        invariant
            forall|k: int|
                0 <= k < i ==> in_grid(
                    level.deep_view(),
                    (#[trigger] snake.body@[k]).x as int,
                    snake.body@[k].y as int,
                ),
    {
        if !on_level(level, snake.body[i]) {
            return false;
        }
    }
    if let Some(point) = food {
        if !on_level(level, *point) {
            return false;
        }
    }
    let buffer = back_buffer(level, snake, food);
    only_codes(&buffer)
}

/// Draws the board: the level with the snake and the food on it, one line of
/// text for each row.
pub fn render(level: &Vec<Vec<i8>>, snake: &Snake, food: &Option<Point>) -> (text: String)
    requires
        fits(level.deep_view(), snake.body@, *food),
        all_codes(drawn_grid(level.deep_view(), snake.body@, *food)),
    ensures
        text@ == grid_text(drawn_grid(level.deep_view(), snake.body@, *food)),
{
    let buffer = back_buffer(level, snake, food);
    draw(&buffer)
}

} // verus!
